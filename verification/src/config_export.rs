//! Configuration profiles: the settings of the policy surface as a value
//! that can be kept and applied again.

use crate::booleans::{
    set_boolean_command,
    set_boolean_text,
    setsebool_texts,
    with_values,
    BooleanManager,
    BooleanStateView,
};
use crate::clock::now_rfc3339;
use crate::file_contexts::{
    delete_file_context_command,
    delete_file_context_text,
    FileContextManager,
    FileContextView,
};
use crate::model::{lemma_views_push, views};
use crate::modules::{
    toggle_module_command,
    toggle_module_text,
    with_enabled,
    ModuleManager,
    SELinuxModuleView,
};
use crate::ports::{delete_port_command, delete_port_text, PortContextView, PortManager};
use crate::tools::{call_of, ToolCall, ToolCallView};
use vstd::prelude::*;
use vstd::string::*;

verus! {

/// The settings of the policy surface at one time.
#[derive(Debug, Clone)]
pub struct ConfigProfile {
    pub name: String,
    pub description: String,
    pub timestamp: String,
    /// Each boolean with its value.
    pub booleans: Vec<(String, bool)>,
    /// The modules that are enabled.
    pub modules: Vec<String>,
    /// Each file-context rule: path and label.
    pub file_contexts: Vec<(String, String)>,
    /// Each port rule: port, protocol and label.
    pub ports: Vec<(String, String, String)>,
}

/// The mathematical value of a `ConfigProfile`.
pub struct ConfigProfileView {
    pub name: Seq<char>,
    pub description: Seq<char>,
    pub timestamp: Seq<char>,
    pub booleans: Seq<(Seq<char>, bool)>,
    pub modules: Seq<Seq<char>>,
    pub file_contexts: Seq<(Seq<char>, Seq<char>)>,
    pub ports: Seq<(Seq<char>, Seq<char>, Seq<char>)>,
}

impl View for ConfigProfile {
    type V = ConfigProfileView;

    open spec fn view(&self) -> ConfigProfileView {
        ConfigProfileView {
            name: self.name@,
            description: self.description@,
            timestamp: self.timestamp@,
            booleans: views(self.booleans@),
            modules: views(self.modules@),
            file_contexts: views(self.file_contexts@),
            ports: views(self.ports@),
        }
    }
}

/// One step of applying a profile.
#[derive(Debug, Clone)]
pub enum ProfileStep {
    /// Set each of these booleans to its value, in one call.
    SetBooleans(Vec<(String, bool)>),
    /// Enable this module.
    EnableModule(String),
    /// Add the file-context rule for this path with this label.
    AddFileContext(String, String),
    /// Add the port rule for this port and protocol with this label.
    AddPort(String, String, String),
}

/// The mathematical value of a `ProfileStep`.
pub enum ProfileStepView {
    SetBooleans(Seq<(Seq<char>, bool)>),
    EnableModule(Seq<char>),
    AddFileContext(Seq<char>, Seq<char>),
    AddPort(Seq<char>, Seq<char>, Seq<char>),
}

impl View for ProfileStep {
    type V = ProfileStepView;

    open spec fn view(&self) -> ProfileStepView {
        match self {
            ProfileStep::SetBooleans(changes) => ProfileStepView::SetBooleans(views(changes@)),
            ProfileStep::EnableModule(name) => ProfileStepView::EnableModule(name@),
            ProfileStep::AddFileContext(path, context) => ProfileStepView::AddFileContext(
                path@,
                context@,
            ),
            ProfileStep::AddPort(port, protocol, context) => ProfileStepView::AddPort(
                port@,
                protocol@,
                context@,
            ),
        }
    }
}

/// What applying a profile came to: the steps that were taken, and the
/// commands that undo them.
#[derive(Debug, Clone)]
pub struct AppliedProfile {
    pub steps: Vec<ProfileStep>,
    pub rollback_commands: Vec<String>,
}

/// The name and current value of each boolean.
pub open spec fn exported_booleans(booleans: Seq<BooleanStateView>) -> Seq<(Seq<char>, bool)> {
    booleans.map_values(|b: BooleanStateView| (b.name, b.current_value))
}

/// The names of the modules that are enabled, in order.
pub open spec fn enabled_names(modules: Seq<SELinuxModuleView>) -> Seq<Seq<char>>
    decreases modules.len(),
{
    if modules.len() == 0 {
        Seq::empty()
    } else if modules.last().enabled {
        enabled_names(modules.drop_last()).push(modules.last().name)
    } else {
        enabled_names(modules.drop_last())
    }
}

/// The path and label of each rule.
pub open spec fn exported_file_contexts(contexts: Seq<FileContextView>) -> Seq<
    (Seq<char>, Seq<char>),
> {
    contexts.map_values(|c: FileContextView| (c.path, c.context))
}

/// The port, protocol and label of each rule.
pub open spec fn exported_ports(ports: Seq<PortContextView>) -> Seq<
    (Seq<char>, Seq<char>, Seq<char>),
> {
    ports.map_values(|p: PortContextView| (p.port, p.protocol, p.context))
}

/// The commands that set each boolean to the opposite of its value in
/// `changes`.
pub open spec fn opposite_texts(changes: Seq<(Seq<char>, bool)>) -> Seq<Seq<char>> {
    changes.map_values(|c: (Seq<char>, bool)| set_boolean_text(c.0, !c.1))
}

/// Whether a module named `name` is enabled.
pub open spec fn is_enabled_in(modules: Seq<SELinuxModuleView>, name: Seq<char>) -> bool {
    exists|i: int| 0 <= i < modules.len() && (#[trigger] modules[i]).name == name && modules[i].enabled
}

/// Whether a rule for `path` is in the list.
pub open spec fn has_path_in(contexts: Seq<FileContextView>, path: Seq<char>) -> bool {
    exists|i: int| 0 <= i < contexts.len() && (#[trigger] contexts[i]).path == path
}

/// Whether a rule for `port` and `protocol` is in the list.
pub open spec fn has_port_in(ports: Seq<PortContextView>, port: Seq<char>, protocol: Seq<char>) -> bool {
    exists|i: int|
        0 <= i < ports.len() && (#[trigger] ports[i]).port == port && ports[i].protocol
            == protocol
}

/// The modules after the modules `names` of a profile have been applied:
/// each that was not enabled when its turn came has been enabled.
pub open spec fn modules_after(modules: Seq<SELinuxModuleView>, names: Seq<Seq<char>>) -> Seq<
    SELinuxModuleView,
>
    decreases names.len(),
{
    if names.len() == 0 {
        modules
    } else {
        let earlier = modules_after(modules, names.drop_last());
        if is_enabled_in(earlier, names.last()) {
            earlier
        } else {
            with_enabled(earlier, names.last(), true)
        }
    }
}

/// The steps that applying the modules `names` of a profile takes.
pub open spec fn module_steps(modules: Seq<SELinuxModuleView>, names: Seq<Seq<char>>) -> Seq<
    ProfileStepView,
>
    decreases names.len(),
{
    if names.len() == 0 {
        Seq::empty()
    } else {
        let earlier = module_steps(modules, names.drop_last());
        if is_enabled_in(modules_after(modules, names.drop_last()), names.last()) {
            earlier
        } else {
            earlier.push(ProfileStepView::EnableModule(names.last()))
        }
    }
}

/// The rules after the rules `rules` of a profile have been applied: each
/// whose path had no rule when its turn came has been added.
pub open spec fn file_contexts_after(
    contexts: Seq<FileContextView>,
    rules: Seq<(Seq<char>, Seq<char>)>,
) -> Seq<FileContextView>
    decreases rules.len(),
{
    if rules.len() == 0 {
        contexts
    } else {
        let earlier = file_contexts_after(contexts, rules.drop_last());
        if has_path_in(earlier, rules.last().0) {
            earlier
        } else {
            earlier.push(FileContextView { path: rules.last().0, context: rules.last().1 })
        }
    }
}

/// The steps that applying the file-context rules `rules` of a profile
/// takes.
pub open spec fn file_context_steps(
    contexts: Seq<FileContextView>,
    rules: Seq<(Seq<char>, Seq<char>)>,
) -> Seq<ProfileStepView>
    decreases rules.len(),
{
    if rules.len() == 0 {
        Seq::empty()
    } else {
        let earlier = file_context_steps(contexts, rules.drop_last());
        if has_path_in(file_contexts_after(contexts, rules.drop_last()), rules.last().0) {
            earlier
        } else {
            earlier.push(ProfileStepView::AddFileContext(rules.last().0, rules.last().1))
        }
    }
}

/// The rules after the port rules `rules` of a profile have been applied:
/// each whose port and protocol had no rule when its turn came has been
/// added.
pub open spec fn ports_after(
    ports: Seq<PortContextView>,
    rules: Seq<(Seq<char>, Seq<char>, Seq<char>)>,
) -> Seq<PortContextView>
    decreases rules.len(),
{
    if rules.len() == 0 {
        ports
    } else {
        let earlier = ports_after(ports, rules.drop_last());
        if has_port_in(earlier, rules.last().0, rules.last().1) {
            earlier
        } else {
            earlier.push(
                PortContextView {
                    port: rules.last().0,
                    protocol: rules.last().1,
                    context: rules.last().2,
                },
            )
        }
    }
}

/// The steps that applying the port rules `rules` of a profile takes.
pub open spec fn port_steps(
    ports: Seq<PortContextView>,
    rules: Seq<(Seq<char>, Seq<char>, Seq<char>)>,
) -> Seq<ProfileStepView>
    decreases rules.len(),
{
    if rules.len() == 0 {
        Seq::empty()
    } else {
        let earlier = port_steps(ports, rules.drop_last());
        if has_port_in(ports_after(ports, rules.drop_last()), rules.last().0, rules.last().1) {
            earlier
        } else {
            earlier.push(
                ProfileStepView::AddPort(rules.last().0, rules.last().1, rules.last().2),
            )
        }
    }
}

/// The steps that applying `profile` takes on the given state: the booleans
/// in one step where there are any, then the modules, the file-context
/// rules and the port rules that are not there yet.
pub open spec fn profile_steps(
    profile: ConfigProfileView,
    modules: Seq<SELinuxModuleView>,
    contexts: Seq<FileContextView>,
    ports: Seq<PortContextView>,
) -> Seq<ProfileStepView> {
    (if profile.booleans.len() > 0 {
        seq![ProfileStepView::SetBooleans(profile.booleans)]
    } else {
        Seq::empty()
    }) + module_steps(modules, profile.modules) + file_context_steps(
        contexts,
        profile.file_contexts,
    ) + port_steps(ports, profile.ports)
}

/// The commands that undo the step `step`. A boolean is set to the
/// opposite of the value it was given.
pub open spec fn step_undo(step: ProfileStepView) -> Seq<Seq<char>> {
    match step {
        ProfileStepView::SetBooleans(changes) => opposite_texts(changes),
        ProfileStepView::EnableModule(name) => seq![toggle_module_text(name, false)],
        ProfileStepView::AddFileContext(path, context) => seq![delete_file_context_text(path)],
        ProfileStepView::AddPort(port, protocol, context) => seq![
            delete_port_text(port, protocol),
        ],
    }
}

/// The commands that undo `steps`, in the order of the steps.
pub open spec fn steps_undo(steps: Seq<ProfileStepView>) -> Seq<Seq<char>>
    decreases steps.len(),
{
    if steps.len() == 0 {
        Seq::empty()
    } else {
        steps_undo(steps.drop_last()) + step_undo(steps.last())
    }
}

/// The calls of the policy tools that take the step `step`.
pub open spec fn step_calls(step: ProfileStepView) -> Seq<ToolCallView> {
    match step {
        ProfileStepView::SetBooleans(changes) => seq![
            call_of("setsebool"@, setsebool_texts(changes)),
        ],
        ProfileStepView::EnableModule(name) => seq![call_of("semodule"@, seq!["-e"@, name])],
        ProfileStepView::AddFileContext(path, context) => seq![
            call_of("semanage"@, seq!["fcontext"@, "-a"@, "-t"@, context, path]),
            call_of("restorecon"@, seq!["-v"@, path]),
        ],
        ProfileStepView::AddPort(port, protocol, context) => seq![
            call_of("semanage"@, seq!["port"@, "-a"@, "-t"@, context, "-p"@, protocol, port]),
        ],
    }
}

impl ProfileStep {
    /// The calls of the policy tools that take this step.
    pub fn calls(&self) -> (r: Vec<ToolCall>)
        ensures
            views(r@) == step_calls(self@),
    {
        let r = match self {
            ProfileStep::SetBooleans(changes) => vec![
                ToolCall::set_booleans(BooleanManager::setsebool_arguments(changes)),
            ],
            ProfileStep::EnableModule(name) => vec![ToolCall::enable_module(name.as_str())],
            ProfileStep::AddFileContext(path, context) => vec![
                ToolCall::add_file_context(path.as_str(), context.as_str()),
                ToolCall::restore_labels(path.as_str()),
            ],
            ProfileStep::AddPort(port, protocol, context) => vec![
                ToolCall::add_port(port.as_str(), protocol.as_str(), context.as_str()),
            ],
        };
        assert(views(r@) =~= step_calls(self@));
        r
    }

    /// The commands that undo this step.
    pub fn undo(&self) -> (r: Vec<String>)
        ensures
            views(r@) == step_undo(self@),
    {
        match self {
            ProfileStep::SetBooleans(changes) => {
                let mut r: Vec<String> = Vec::new();
                let mut i: usize = 0;
                while i < changes.len()
                    invariant
                        i <= changes.len(),
                        views(r@) =~= opposite_texts(views(changes@)).take(i as int),
                    decreases changes.len() - i,
                {
                    let cmd = set_boolean_command(changes[i].0.as_str(), !changes[i].1);
                    proof {
                        lemma_views_push(r@, cmd);
                    }
                    r.push(cmd);
                    i += 1;
                }
                assert(views(r@) =~= opposite_texts(views(changes@)));
                r
            },
            ProfileStep::EnableModule(name) => {
                let r = vec![toggle_module_command(name.as_str(), false)];
                assert(views(r@) =~= step_undo(self@));
                r
            },
            ProfileStep::AddFileContext(path, context) => {
                let r = vec![delete_file_context_command(path.as_str())];
                assert(views(r@) =~= step_undo(self@));
                r
            },
            ProfileStep::AddPort(port, protocol, context) => {
                let r = vec![delete_port_command(port.as_str(), protocol.as_str())];
                assert(views(r@) =~= step_undo(self@));
                r
            },
        }
    }
}

fn copy_changes(changes: &Vec<(String, bool)>) -> (r: Vec<(String, bool)>)
    ensures
        views(r@) == views(changes@),
{
    let mut r: Vec<(String, bool)> = Vec::new();
    let mut i: usize = 0;
    while i < changes.len()
        invariant
            i <= changes.len(),
            views(r@) =~= views(changes@).take(i as int),
        decreases changes.len() - i,
    {
        let entry = (changes[i].0.clone(), changes[i].1);
        proof {
            lemma_views_push(r@, entry);
        }
        r.push(entry);
        i += 1;
    }
    assert(views(r@) =~= views(changes@));
    r
}

/// Keeps profiles and applies them.
pub struct ConfigExporter;

impl ConfigExporter {
    /// The profile of what the managers hold, with `timestamp` as the time
    /// it was taken.
    pub fn export_profile_at(
        timestamp: String,
        name: &str,
        description: &str,
        boolean_manager: &BooleanManager,
        module_manager: &ModuleManager,
        file_context_manager: &FileContextManager,
        port_manager: &PortManager,
    ) -> (r: ConfigProfile)
        ensures
            r@ == (ConfigProfileView {
                name: name@,
                description: description@,
                timestamp: timestamp@,
                booleans: exported_booleans(views(boolean_manager.booleans@)),
                modules: enabled_names(views(module_manager.modules@)),
                file_contexts: exported_file_contexts(views(file_context_manager.contexts@)),
                ports: exported_ports(views(port_manager.ports@)),
            }),
    {
        let mut booleans: Vec<(String, bool)> = Vec::new();
        let mut i: usize = 0;
        while i < boolean_manager.booleans.len()
            invariant
                i <= boolean_manager.booleans.len(),
                views(booleans@) =~= exported_booleans(views(boolean_manager.booleans@)).take(
                    i as int,
                ),
            decreases boolean_manager.booleans.len() - i,
        {
            let b = &boolean_manager.booleans[i];
            let entry = (b.name.clone(), b.current_value);
            proof {
                lemma_views_push(booleans@, entry);
            }
            booleans.push(entry);
            i += 1;
        }
        let mut modules: Vec<String> = Vec::new();
        let mut i: usize = 0;
        assert(views(module_manager.modules@).take(0) =~= Seq::<SELinuxModuleView>::empty());
        assert(views(modules@) =~= Seq::<Seq<char>>::empty());
        while i < module_manager.modules.len()
            invariant
                i <= module_manager.modules.len(),
                views(modules@) == enabled_names(views(module_manager.modules@).take(i as int)),
            decreases module_manager.modules.len() - i,
        {
            let m = &module_manager.modules[i];
            proof {
                let all = views(module_manager.modules@);
                assert(all.take(i + 1).drop_last() =~= all.take(i as int));
                assert(all.take(i + 1).last() == m@);
            }
            if m.enabled {
                let name = m.name.clone();
                proof {
                    lemma_views_push(modules@, name);
                }
                modules.push(name);
            }
            i += 1;
        }
        assert(views(module_manager.modules@).take(module_manager.modules.len() as int) =~= views(
            module_manager.modules@,
        ));
        let mut file_contexts: Vec<(String, String)> = Vec::new();
        let mut i: usize = 0;
        while i < file_context_manager.contexts.len()
            invariant
                i <= file_context_manager.contexts.len(),
                views(file_contexts@) =~= exported_file_contexts(
                    views(file_context_manager.contexts@),
                ).take(i as int),
            decreases file_context_manager.contexts.len() - i,
        {
            let c = &file_context_manager.contexts[i];
            let entry = (c.path.clone(), c.context.clone());
            proof {
                lemma_views_push(file_contexts@, entry);
            }
            file_contexts.push(entry);
            i += 1;
        }
        let mut ports: Vec<(String, String, String)> = Vec::new();
        let mut i: usize = 0;
        while i < port_manager.ports.len()
            invariant
                i <= port_manager.ports.len(),
                views(ports@) =~= exported_ports(views(port_manager.ports@)).take(i as int),
            decreases port_manager.ports.len() - i,
        {
            let p = &port_manager.ports[i];
            let entry = (p.port.clone(), p.protocol.clone(), p.context.clone());
            proof {
                lemma_views_push(ports@, entry);
            }
            ports.push(entry);
            i += 1;
        }
        let r = ConfigProfile {
            name: String::from_str(name),
            description: String::from_str(description),
            timestamp,
            booleans,
            modules,
            file_contexts,
            ports,
        };
        assert(r@.booleans =~= exported_booleans(views(boolean_manager.booleans@)));
        assert(r@.file_contexts =~= exported_file_contexts(views(file_context_manager.contexts@)));
        assert(r@.ports =~= exported_ports(views(port_manager.ports@)));
        r
    }

    /// The profile of what the managers hold, taken now. Nothing but the
    /// timestamp depends on the clock.
    pub fn export_profile(
        name: &str,
        description: &str,
        boolean_manager: &BooleanManager,
        module_manager: &ModuleManager,
        file_context_manager: &FileContextManager,
        port_manager: &PortManager,
    ) -> (r: ConfigProfile)
        ensures
            r@ == (ConfigProfileView {
                name: name@,
                description: description@,
                timestamp: r@.timestamp,
                booleans: exported_booleans(views(boolean_manager.booleans@)),
                modules: enabled_names(views(module_manager.modules@)),
                file_contexts: exported_file_contexts(views(file_context_manager.contexts@)),
                ports: exported_ports(views(port_manager.ports@)),
            }),
    {
        Self::export_profile_at(
            now_rfc3339(),
            name,
            description,
            boolean_manager,
            module_manager,
            file_context_manager,
            port_manager,
        )
    }

    /// Applies `profile` to what the managers hold and says which steps that
    /// took and which commands undo them.
    ///
    /// The booleans of the profile are set. Each module of the profile that
    /// is not enabled is enabled. Each file-context rule of the profile
    /// whose path has no rule, and each port rule whose port and protocol
    /// have none, is added. A setting that is there already takes no step.
    pub fn apply_profile(
        profile: &ConfigProfile,
        boolean_manager: &mut BooleanManager,
        module_manager: &mut ModuleManager,
        file_context_manager: &mut FileContextManager,
        port_manager: &mut PortManager,
    ) -> (r: AppliedProfile)
        ensures
            views(r.steps@) == profile_steps(
                profile@,
                views(old(module_manager).modules@),
                views(old(file_context_manager).contexts@),
                views(old(port_manager).ports@),
            ),
            views(r.rollback_commands@) == steps_undo(views(r.steps@)),
            views(final(boolean_manager).booleans@) == with_values(
                views(old(boolean_manager).booleans@),
                profile@.booleans,
            ),
            views(final(module_manager).modules@) == modules_after(
                views(old(module_manager).modules@),
                profile@.modules,
            ),
            views(final(file_context_manager).contexts@) == file_contexts_after(
                views(old(file_context_manager).contexts@),
                profile@.file_contexts,
            ),
            views(final(port_manager).ports@) == ports_after(
                views(old(port_manager).ports@),
                profile@.ports,
            ),
    {
        let mut steps: Vec<ProfileStep> = Vec::new();
        let mut rollback_commands: Vec<String> = Vec::new();
        let ghost modules0 = views(module_manager.modules@);
        let ghost contexts0 = views(file_context_manager.contexts@);
        let ghost ports0 = views(port_manager.ports@);
        assert(views(steps@) =~= Seq::<ProfileStepView>::empty());
        assert(views(rollback_commands@) =~= Seq::<Seq<char>>::empty());
        if profile.booleans.len() > 0 {
            let step = ProfileStep::SetBooleans(copy_changes(&profile.booleans));
            Self::take_step(&mut steps, &mut rollback_commands, step);
            boolean_manager.set_booleans_persistent(&profile.booleans);
        } else {
            assert(profile@.booleans =~= Seq::<(Seq<char>, bool)>::empty());
        }
        let ghost first = views(steps@);
        assert(first + Seq::<ProfileStepView>::empty() =~= first);
        assert(profile@.modules.take(0) =~= Seq::<Seq<char>>::empty());
        let mut i: usize = 0;
        while i < profile.modules.len()
            invariant
                i <= profile.modules.len(),
                views(module_manager.modules@) == modules_after(
                    modules0,
                    profile@.modules.take(i as int),
                ),
                views(steps@) == first + module_steps(modules0, profile@.modules.take(i as int)),
                views(rollback_commands@) == steps_undo(views(steps@)),
            decreases profile.modules.len() - i,
        {
            let name = &profile.modules[i];
            proof {
                assert(profile@.modules.take(i + 1).drop_last() =~= profile@.modules.take(i as int));
                assert(profile@.modules.take(i + 1).last() == name@);
            }
            if !Self::is_enabled(module_manager, name) {
                let ghost before = views(steps@);
                Self::take_step(
                    &mut steps,
                    &mut rollback_commands,
                    ProfileStep::EnableModule(name.clone()),
                );
                module_manager.enable_module(name.as_str());
                assert(views(steps@) =~= first + module_steps(
                    modules0,
                    profile@.modules.take(i + 1),
                ));
            }
            i += 1;
        }
        assert(profile@.modules.take(profile.modules.len() as int) =~= profile@.modules);
        let ghost second = views(steps@);
        assert(second + Seq::<ProfileStepView>::empty() =~= second);
        assert(profile@.file_contexts.take(0) =~= Seq::<(Seq<char>, Seq<char>)>::empty());
        let mut i: usize = 0;
        while i < profile.file_contexts.len()
            invariant
                i <= profile.file_contexts.len(),
                views(file_context_manager.contexts@) == file_contexts_after(
                    contexts0,
                    profile@.file_contexts.take(i as int),
                ),
                views(steps@) == second + file_context_steps(
                    contexts0,
                    profile@.file_contexts.take(i as int),
                ),
                views(rollback_commands@) == steps_undo(views(steps@)),
            decreases profile.file_contexts.len() - i,
        {
            let rule = &profile.file_contexts[i];
            proof {
                assert(profile@.file_contexts.take(i + 1).drop_last()
                    =~= profile@.file_contexts.take(i as int));
                assert(profile@.file_contexts.take(i + 1).last() == rule@);
            }
            if !file_context_manager.has_path(rule.0.as_str()) {
                Self::take_step(
                    &mut steps,
                    &mut rollback_commands,
                    ProfileStep::AddFileContext(rule.0.clone(), rule.1.clone()),
                );
                file_context_manager.add_file_context(rule.0.as_str(), rule.1.as_str());
                assert(views(steps@) =~= second + file_context_steps(
                    contexts0,
                    profile@.file_contexts.take(i + 1),
                ));
            }
            i += 1;
        }
        assert(profile@.file_contexts.take(profile.file_contexts.len() as int)
            =~= profile@.file_contexts);
        let ghost third = views(steps@);
        assert(third + Seq::<ProfileStepView>::empty() =~= third);
        assert(profile@.ports.take(0) =~= Seq::<(Seq<char>, Seq<char>, Seq<char>)>::empty());
        let mut i: usize = 0;
        while i < profile.ports.len()
            invariant
                i <= profile.ports.len(),
                views(port_manager.ports@) == ports_after(ports0, profile@.ports.take(i as int)),
                views(steps@) == third + port_steps(ports0, profile@.ports.take(i as int)),
                views(rollback_commands@) == steps_undo(views(steps@)),
            decreases profile.ports.len() - i,
        {
            let rule = &profile.ports[i];
            proof {
                assert(profile@.ports.take(i + 1).drop_last() =~= profile@.ports.take(i as int));
                assert(profile@.ports.take(i + 1).last() == rule@);
            }
            if !port_manager.has_port(rule.0.as_str(), rule.1.as_str()) {
                Self::take_step(
                    &mut steps,
                    &mut rollback_commands,
                    ProfileStep::AddPort(rule.0.clone(), rule.1.clone(), rule.2.clone()),
                );
                port_manager.add_port(rule.0.as_str(), rule.1.as_str(), rule.2.as_str());
                assert(views(steps@) =~= third + port_steps(ports0, profile@.ports.take(i + 1)));
            }
            i += 1;
        }
        assert(profile@.ports.take(profile.ports.len() as int) =~= profile@.ports);
        assert(views(steps@) =~= profile_steps(profile@, modules0, contexts0, ports0));
        AppliedProfile { steps, rollback_commands }
    }

    fn is_enabled(module_manager: &ModuleManager, name: &String) -> (r: bool)
        ensures
            r == is_enabled_in(views(module_manager.modules@), name@),
    {
        let mut i: usize = 0;
        while i < module_manager.modules.len()
            invariant
                i <= module_manager.modules.len(),
                forall|j: int|
                    0 <= j < i ==> !((#[trigger] views(module_manager.modules@)[j]).name == name@
                        && views(module_manager.modules@)[j].enabled),
            decreases module_manager.modules.len() - i,
        {
            if module_manager.modules[i].name == *name && module_manager.modules[i].enabled {
                assert(views(module_manager.modules@)[i as int].name == name@);
                return true;
            }
            i += 1;
        }
        false
    }

    fn take_step(steps: &mut Vec<ProfileStep>, rollback_commands: &mut Vec<String>, step: ProfileStep)
        requires
            views(old(rollback_commands)@) == steps_undo(views(old(steps)@)),
        ensures
            views(final(steps)@) == views(old(steps)@).push(step@),
            views(final(rollback_commands)@) == steps_undo(views(final(steps)@)),
    {
        let mut undo = step.undo();
        let ghost before = rollback_commands@;
        let ghost added = undo@;
        rollback_commands.append(&mut undo);
        proof {
            assert(views(before + added) =~= views(before) + views(added));
            lemma_views_push(steps@, step);
            assert(views(steps@).push(step@).drop_last() =~= views(steps@));
        }
        steps.push(step);
    }
}

} // verus!
