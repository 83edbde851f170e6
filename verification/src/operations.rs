//! The changes that the operator can ask for: how each is announced, which
//! calls of the policy tools make it, how it is described once it is made,
//! and which commands undo it.

use crate::avc::AVCSolution;
use crate::booleans::{set_boolean_command, set_boolean_text, BooleanState};
use crate::file_contexts::{
    add_file_context_command,
    add_file_context_text,
    delete_file_context_command,
    delete_file_context_text,
    FileContext,
};
use crate::model::{lemma_views_push, views};
use crate::modules::{toggle_module_command, toggle_module_text, SELinuxModule};
use crate::ports::{
    add_port_command,
    add_port_text,
    delete_port_command,
    delete_port_text,
    PortContext,
};
use crate::text::is_text;
use crate::tools::{call_of, ToolCall, ToolCallView};
use vstd::prelude::*;
use vstd::string::*;

verus! {

/// One change of the policy surface that the operator has asked for.
#[derive(Debug, Clone)]
pub struct Operation {
    /// What is shown while the change is made. It is also the action under
    /// which the change is recorded.
    pub message: String,
    /// What is reported once the change is made.
    pub description: String,
    /// The commands that undo the change.
    pub rollback_commands: Vec<String>,
    /// The calls of the policy tools that make the change, in order. A
    /// simulated change makes no call.
    pub calls: Vec<ToolCall>,
}

/// The mathematical value of an `Operation`.
pub struct OperationView {
    pub message: Seq<char>,
    pub description: Seq<char>,
    pub rollback_commands: Seq<Seq<char>>,
    pub calls: Seq<ToolCallView>,
}

impl View for Operation {
    type V = OperationView;

    open spec fn view(&self) -> OperationView {
        OperationView {
            message: self.message@,
            description: self.description@,
            rollback_commands: views(self.rollback_commands@),
            calls: views(self.calls@),
        }
    }
}

/// The calls that are made of `calls`: none where the change is simulated.
pub open spec fn made(calls: Seq<ToolCallView>, simulation: bool) -> Seq<ToolCallView> {
    if simulation {
        Seq::empty()
    } else {
        calls
    }
}

/// The word for a truth value.
pub open spec fn truth_text(value: bool) -> Seq<char> {
    if value {
        "true"@
    } else {
        "false"@
    }
}

/// The word for a switch position.
pub open spec fn switch_text(value: bool) -> Seq<char> {
    if value {
        "on"@
    } else {
        "off"@
    }
}

/// For each command the remark that it has to be undone by hand.
pub open spec fn undo_remarks(commands: Seq<Seq<char>>) -> Seq<Seq<char>> {
    commands.map_values(|c: Seq<char>| "# undo: "@ + c)
}

/// For each command the call that hands it to the shell.
pub open spec fn shell_calls(commands: Seq<Seq<char>>) -> Seq<ToolCallView> {
    commands.map_values(|c: Seq<char>| call_of("sh"@, seq!["-c"@, c]))
}

/// Whether a recommendation's value switches a boolean on.
pub open spec fn switches_on(value: Seq<char>) -> bool {
    value == "on"@ || value == "true"@
}

fn text3(a: &str, b: &str, c: &str) -> (r: String)
    ensures
        r@ == a@ + b@ + c@,
{
    let mut r = String::from_str(a);
    r.append(b);
    r.append(c);
    r
}

fn one_command(command: String) -> (r: Vec<String>)
    ensures
        views(r@) == seq![command@],
{
    let r = vec![command];
    assert(views(r@) =~= seq![command@]);
    r
}

fn one_call(call: ToolCall) -> (r: Vec<ToolCall>)
    ensures
        views(r@) == seq![call@],
{
    let r = vec![call];
    assert(views(r@) =~= seq![call@]);
    r
}

impl Operation {
    fn new(
        message: String,
        description: String,
        rollback_commands: Vec<String>,
        calls: Vec<ToolCall>,
        simulation: bool,
    ) -> (r: Self)
        ensures
            r@ == (OperationView {
                message: message@,
                description: description@,
                rollback_commands: views(rollback_commands@),
                calls: made(views(calls@), simulation),
            }),
    {
        let calls = if simulation {
            let none: Vec<ToolCall> = Vec::new();
            assert(views(none@) =~= Seq::<ToolCallView>::empty());
            none
        } else {
            calls
        };
        Operation { message, description, rollback_commands, calls }
    }

    /// Gives the boolean `boolean` the opposite of its value.
    pub fn toggle_boolean(boolean: &BooleanState, simulation: bool) -> (r: Self)
        ensures
            r@ == (OperationView {
                message: "Setting boolean "@ + boolean@.name + "..."@,
                description: "Set "@ + boolean@.name + " to "@ + truth_text(!boolean.current_value),
                rollback_commands: seq![set_boolean_text(boolean@.name, boolean.current_value)],
                calls: made(
                    seq![
                        call_of(
                            "setsebool"@,
                            seq!["-P"@, boolean@.name, switch_text(!boolean.current_value)],
                        ),
                    ],
                    simulation,
                ),
            }),
    {
        let name = boolean.name.as_str();
        let value = !boolean.current_value;
        let mut description = text3("Set ", name, " to ");
        description.append(
            if value {
                "true"
            } else {
                "false"
            },
        );
        Self::new(
            text3("Setting boolean ", name, "..."),
            description,
            one_command(set_boolean_command(name, !value)),
            one_call(ToolCall::set_boolean(name, value)),
            simulation,
        )
    }

    /// Disables the module `module` where it is enabled, and enables it
    /// where it is not.
    pub fn toggle_module(module: &SELinuxModule, simulation: bool) -> (r: Self)
        ensures
            r@ == (OperationView {
                message: (if module.enabled {
                    "Disabling"@
                } else {
                    "Enabling"@
                }) + " module "@ + module@.name + "..."@,
                description: "Toggled module "@ + module@.name,
                rollback_commands: seq![toggle_module_text(module@.name, module.enabled)],
                calls: made(
                    seq![
                        call_of(
                            "semodule"@,
                            seq![
                                if module.enabled {
                                    "-d"@
                                } else {
                                    "-e"@
                                },
                                module@.name,
                            ],
                        ),
                    ],
                    simulation,
                ),
            }),
    {
        let name = module.name.as_str();
        let mut message = String::from_str(
            if module.enabled {
                "Disabling"
            } else {
                "Enabling"
            },
        );
        message.append(" module ");
        message.append(name);
        message.append("...");
        let mut description = String::from_str("Toggled module ");
        description.append(name);
        let call = if module.enabled {
            ToolCall::disable_module(name)
        } else {
            ToolCall::enable_module(name)
        };
        Self::new(
            message,
            description,
            one_command(toggle_module_command(name, module.enabled)),
            one_call(call),
            simulation,
        )
    }

    /// Installs the module package at `path`. What undoes it removes the
    /// module named `stem`, or the module `unknown` where the path gave no
    /// name.
    pub fn install_module(path: &str, stem: Option<String>, simulation: bool) -> (r: Self)
        ensures
            r@ == (OperationView {
                message: "Installing module from "@ + path@ + "..."@,
                description: "Installed module from "@ + path@,
                rollback_commands: seq![
                    "semodule -r "@ + (match stem {
                        Some(s) => s@,
                        None => "unknown"@,
                    }),
                ],
                calls: made(seq![call_of("semodule"@, seq!["-i"@, path@])], simulation),
            }),
    {
        let mut undo = String::from_str("semodule -r ");
        match &stem {
            Some(s) => undo.append(s.as_str()),
            None => undo.append("unknown"),
        }
        let mut description = String::from_str("Installed module from ");
        description.append(path);
        Self::new(
            text3("Installing module from ", path, "..."),
            description,
            one_command(undo),
            one_call(ToolCall::install_module(path)),
            simulation,
        )
    }

    /// Builds the module `name` from denials and installs it. The calls
    /// that this takes depend on where the files of the build are put, and
    /// are left to the caller; `report` is what the build says once done.
    pub fn create_module(name: &str, report: &str) -> (r: Self)
        ensures
            r@ == (OperationView {
                message: "Creating module "@ + name@ + "..."@,
                description: report@,
                rollback_commands: seq!["semodule -r "@ + name@],
                calls: Seq::empty(),
            }),
    {
        let mut undo = String::from_str("semodule -r ");
        undo.append(name);
        Self::new(
            text3("Creating module ", name, "..."),
            String::from_str(report),
            one_command(undo),
            Vec::new(),
            true,
        )
    }

    /// Removes the module `name`.
    pub fn remove_module(name: &str, simulation: bool) -> (r: Self)
        ensures
            r@ == (OperationView {
                message: "Removing module "@ + name@ + "..."@,
                description: "Removed module "@ + name@,
                rollback_commands: seq!["semodule -i "@ + name@],
                calls: made(seq![call_of("semodule"@, seq!["-r"@, name@])], simulation),
            }),
    {
        let mut undo = String::from_str("semodule -i ");
        undo.append(name);
        let mut description = String::from_str("Removed module ");
        description.append(name);
        Self::new(
            text3("Removing module ", name, "..."),
            description,
            one_command(undo),
            one_call(ToolCall::remove_module(name)),
            simulation,
        )
    }

    /// Adds the port rule `port/protocol -> context`.
    pub fn add_port(port: &str, protocol: &str, context: &str, simulation: bool) -> (r: Self)
        ensures
            r@ == (OperationView {
                message: "Adding Port..."@,
                description: "Added port "@ + port@ + "/"@ + protocol@,
                rollback_commands: seq![delete_port_text(port@, protocol@)],
                calls: made(
                    seq![
                        call_of(
                            "semanage"@,
                            seq!["port"@, "-a"@, "-t"@, context@, "-p"@, protocol@, port@],
                        ),
                    ],
                    simulation,
                ),
            }),
    {
        let mut description = text3("Added port ", port, "/");
        description.append(protocol);
        Self::new(
            String::from_str("Adding Port..."),
            description,
            one_command(delete_port_command(port, protocol)),
            one_call(ToolCall::add_port(port, protocol, context)),
            simulation,
        )
    }

    /// Removes the port rule `rule`.
    pub fn remove_port(rule: &PortContext, simulation: bool) -> (r: Self)
        ensures
            r@ == (OperationView {
                message: "Removing port "@ + rule@.port + "..."@,
                description: "Removed port "@ + rule@.port,
                rollback_commands: seq![add_port_text(rule@.port, rule@.protocol, rule@.context)],
                calls: made(
                    seq![
                        call_of(
                            "semanage"@,
                            seq!["port"@, "-d"@, "-p"@, rule@.protocol, rule@.port],
                        ),
                    ],
                    simulation,
                ),
            }),
    {
        let port = rule.port.as_str();
        let mut description = String::from_str("Removed port ");
        description.append(port);
        Self::new(
            text3("Removing port ", port, "..."),
            description,
            one_command(add_port_command(port, rule.protocol.as_str(), rule.context.as_str())),
            one_call(ToolCall::remove_port(port, rule.protocol.as_str())),
            simulation,
        )
    }

    /// Adds the file-context rule `path -> context` and puts the label on
    /// the files. With `recommended` the change is announced as one that the
    /// advisor proposed.
    pub fn add_file_context(path: &str, context: &str, recommended: bool, simulation: bool) -> (r:
        Self)
        ensures
            r@ == (OperationView {
                message: if recommended {
                    "Adding file context "@ + path@ + "..."@
                } else {
                    "Adding File Context..."@
                },
                description: "Added context for "@ + path@,
                rollback_commands: seq![delete_file_context_text(path@)],
                calls: made(
                    seq![
                        call_of("semanage"@, seq!["fcontext"@, "-a"@, "-t"@, context@, path@]),
                        call_of("restorecon"@, seq!["-v"@, path@]),
                    ],
                    simulation,
                ),
            }),
    {
        let message = if recommended {
            text3("Adding file context ", path, "...")
        } else {
            String::from_str("Adding File Context...")
        };
        let mut description = String::from_str("Added context for ");
        description.append(path);
        let calls = vec![ToolCall::add_file_context(path, context), ToolCall::restore_labels(path)];
        assert(views(calls@) =~= seq![
            call_of("semanage"@, seq!["fcontext"@, "-a"@, "-t"@, context@, path@]),
            call_of("restorecon"@, seq!["-v"@, path@]),
        ]);
        Self::new(
            message,
            description,
            one_command(delete_file_context_command(path)),
            calls,
            simulation,
        )
    }

    /// Removes the file-context rule `rule`.
    pub fn remove_file_context(rule: &FileContext, simulation: bool) -> (r: Self)
        ensures
            r@ == (OperationView {
                message: "Removing context "@ + rule@.path + "..."@,
                description: "Removed context "@ + rule@.path,
                rollback_commands: seq![add_file_context_text(rule@.path, rule@.context)],
                calls: made(
                    seq![call_of("semanage"@, seq!["fcontext"@, "-d"@, rule@.path])],
                    simulation,
                ),
            }),
    {
        let path = rule.path.as_str();
        let mut description = String::from_str("Removed context ");
        description.append(path);
        Self::new(
            text3("Removing context ", path, "..."),
            description,
            one_command(add_file_context_command(path, rule.context.as_str())),
            one_call(ToolCall::remove_file_context(path)),
            simulation,
        )
    }

    /// Sets the boolean `name` as a recommendation with the value `value`
    /// says: on for `on` and `true`, off for anything else.
    pub fn recommended_boolean(name: &str, value: &str, simulation: bool) -> (r: Self)
        ensures
            r@ == (OperationView {
                message: "Applying boolean "@ + name@ + "..."@,
                description: "Applied boolean "@ + name@,
                rollback_commands: seq![set_boolean_text(name@, !switches_on(value@))],
                calls: made(
                    seq![
                        call_of(
                            "setsebool"@,
                            seq!["-P"@, name@, switch_text(switches_on(value@))],
                        ),
                    ],
                    simulation,
                ),
            }),
    {
        let text = String::from_str(value);
        let on = is_text(&text, "on") || is_text(&text, "true");
        let mut description = String::from_str("Applied boolean ");
        description.append(name);
        Self::new(
            text3("Applying boolean ", name, "..."),
            description,
            one_command(set_boolean_command(name, !on)),
            one_call(ToolCall::set_boolean(name, on)),
            simulation,
        )
    }

    /// Executes the commands of `solution`. What undoes them the library
    /// cannot tell: the undo commands are remarks that name them.
    pub fn apply_solution(solution: &AVCSolution, simulation: bool) -> (r: Self)
        ensures
            r@ == (OperationView {
                message: "Applying AVC Fix..."@,
                description: "Applied: "@ + solution@.description,
                rollback_commands: undo_remarks(solution@.commands),
                calls: made(shell_calls(solution@.commands), simulation),
            }),
    {
        let mut remarks: Vec<String> = Vec::new();
        let mut calls: Vec<ToolCall> = Vec::new();
        let mut i: usize = 0;
        while i < solution.commands.len()
            invariant
                i <= solution.commands.len(),
                views(remarks@) =~= undo_remarks(solution@.commands).take(i as int),
                views(calls@) =~= shell_calls(solution@.commands).take(i as int),
            decreases solution.commands.len() - i,
        {
            let command = solution.commands[i].as_str();
            let mut remark = String::from_str("# undo: ");
            remark.append(command);
            let call = ToolCall::shell(command);
            proof {
                lemma_views_push(remarks@, remark);
                lemma_views_push(calls@, call);
            }
            remarks.push(remark);
            calls.push(call);
            i += 1;
        }
        assert(views(remarks@) =~= undo_remarks(solution@.commands));
        assert(views(calls@) =~= shell_calls(solution@.commands));
        let mut description = String::from_str("Applied: ");
        description.append(solution.description.as_str());
        Self::new(String::from_str("Applying AVC Fix..."), description, remarks, calls, simulation)
    }
}

} // verus!
