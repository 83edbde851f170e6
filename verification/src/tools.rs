//! The calls of the policy tools: which program, with which arguments.
//!
//! The library never starts a program. It says what has to be called, and
//! the caller makes the call.

use crate::model::{lemma_views_push, views};
use vstd::prelude::*;
use vstd::string::*;

verus! {

/// One call of a program.
#[derive(Debug, Clone)]
pub struct ToolCall {
    pub program: String,
    pub arguments: Vec<String>,
}

/// The mathematical value of a `ToolCall`.
pub struct ToolCallView {
    pub program: Seq<char>,
    pub arguments: Seq<Seq<char>>,
}

impl View for ToolCall {
    type V = ToolCallView;

    open spec fn view(&self) -> ToolCallView {
        ToolCallView { program: self.program@, arguments: views(self.arguments@) }
    }
}

/// The call of `program` with `arguments`.
pub open spec fn call_of(program: Seq<char>, arguments: Seq<Seq<char>>) -> ToolCallView {
    ToolCallView { program, arguments }
}

/// One string.
fn strings1(a: &str) -> (r: Vec<String>)
    ensures
        views(r@) == seq![a@],
{
    let r = vec![String::from_str(a)];
    assert(views(r@) =~= seq![a@]);
    r
}

/// Two strings.
fn strings2(a: &str, b: &str) -> (r: Vec<String>)
    ensures
        views(r@) == seq![a@, b@],
{
    let r = vec![String::from_str(a), String::from_str(b)];
    assert(views(r@) =~= seq![a@, b@]);
    r
}

/// Three strings.
fn strings3(a: &str, b: &str, c: &str) -> (r: Vec<String>)
    ensures
        views(r@) == seq![a@, b@, c@],
{
    let r = vec![String::from_str(a), String::from_str(b), String::from_str(c)];
    assert(views(r@) =~= seq![a@, b@, c@]);
    r
}

impl ToolCall {
    /// The call of `program` with `arguments`.
    pub fn new(program: &str, arguments: Vec<String>) -> (r: Self)
        ensures
            r@ == call_of(program@, views(arguments@)),
    {
        ToolCall { program: String::from_str(program), arguments }
    }

    /// Lists every boolean with its value.
    pub fn list_booleans() -> (r: Self)
        ensures
            r@ == call_of("getsebool"@, seq!["-a"@]),
    {
        Self::new("getsebool", strings1("-a"))
    }

    /// Lists every boolean with its default and its description.
    pub fn describe_booleans() -> (r: Self)
        ensures
            r@ == call_of("semanage"@, seq!["boolean"@, "-l"@]),
    {
        Self::new("semanage", strings2("boolean", "-l"))
    }

    /// Makes the changes whose arguments `BooleanManager::setsebool_arguments`
    /// has written.
    pub fn set_booleans(arguments: Vec<String>) -> (r: Self)
        ensures
            r@ == call_of("setsebool"@, views(arguments@)),
    {
        Self::new("setsebool", arguments)
    }

    /// Sets the boolean `name` for good.
    pub fn set_boolean(name: &str, value: bool) -> (r: Self)
        ensures
            r@ == call_of(
                "setsebool"@,
                seq![
                    "-P"@,
                    name@,
                    if value {
                        "on"@
                    } else {
                        "off"@
                    },
                ],
            ),
    {
        Self::new(
            "setsebool",
            strings3(
                "-P",
                name,
                if value {
                    "on"
                } else {
                    "off"
                },
            ),
        )
    }

    /// Lists the loaded modules.
    pub fn list_modules() -> (r: Self)
        ensures
            r@ == call_of("semodule"@, seq!["-l"@]),
    {
        Self::new("semodule", strings1("-l"))
    }

    /// Enables the module `name`.
    pub fn enable_module(name: &str) -> (r: Self)
        ensures
            r@ == call_of("semodule"@, seq!["-e"@, name@]),
    {
        Self::new("semodule", strings2("-e", name))
    }

    /// Disables the module `name`.
    pub fn disable_module(name: &str) -> (r: Self)
        ensures
            r@ == call_of("semodule"@, seq!["-d"@, name@]),
    {
        Self::new("semodule", strings2("-d", name))
    }

    /// Installs the module package at `path`.
    pub fn install_module(path: &str) -> (r: Self)
        ensures
            r@ == call_of("semodule"@, seq!["-i"@, path@]),
    {
        Self::new("semodule", strings2("-i", path))
    }

    /// Removes the module `name`.
    pub fn remove_module(name: &str) -> (r: Self)
        ensures
            r@ == call_of("semodule"@, seq!["-r"@, name@]),
    {
        Self::new("semodule", strings2("-r", name))
    }

    /// Makes the module `name` from the audit log in the file `log`.
    pub fn build_module(log: &str, name: &str) -> (r: Self)
        ensures
            r@ == call_of("audit2allow"@, seq!["-i"@, log@, "-M"@, name@]),
    {
        let mut arguments = strings2("-i", log);
        let flag = String::from_str("-M");
        let module = String::from_str(name);
        proof {
            lemma_views_push(arguments@, flag);
            lemma_views_push(arguments@.push(flag), module);
        }
        arguments.push(flag);
        arguments.push(module);
        let r = Self::new("audit2allow", arguments);
        assert(r@.arguments =~= seq!["-i"@, log@, "-M"@, name@]);
        r
    }

    /// Lists the file-context rules.
    pub fn list_file_contexts() -> (r: Self)
        ensures
            r@ == call_of("semanage"@, seq!["fcontext"@, "-l"@]),
    {
        Self::new("semanage", strings2("fcontext", "-l"))
    }

    /// Adds the file-context rule `path -> context`.
    pub fn add_file_context(path: &str, context: &str) -> (r: Self)
        ensures
            r@ == call_of("semanage"@, seq!["fcontext"@, "-a"@, "-t"@, context@, path@]),
    {
        let mut arguments = strings3("fcontext", "-a", "-t");
        let label = String::from_str(context);
        let subject = String::from_str(path);
        proof {
            lemma_views_push(arguments@, label);
            lemma_views_push(arguments@.push(label), subject);
        }
        arguments.push(label);
        arguments.push(subject);
        let r = Self::new("semanage", arguments);
        assert(r@.arguments =~= seq!["fcontext"@, "-a"@, "-t"@, context@, path@]);
        r
    }

    /// Puts the stored labels back on `path`.
    pub fn restore_labels(path: &str) -> (r: Self)
        ensures
            r@ == call_of("restorecon"@, seq!["-v"@, path@]),
    {
        Self::new("restorecon", strings2("-v", path))
    }

    /// Deletes the file-context rule for `path`.
    pub fn remove_file_context(path: &str) -> (r: Self)
        ensures
            r@ == call_of("semanage"@, seq!["fcontext"@, "-d"@, path@]),
    {
        Self::new("semanage", strings3("fcontext", "-d", path))
    }

    /// Lists the port rules.
    pub fn list_ports() -> (r: Self)
        ensures
            r@ == call_of("semanage"@, seq!["port"@, "-l"@]),
    {
        Self::new("semanage", strings2("port", "-l"))
    }

    /// Adds the port rule `port/protocol -> context`.
    pub fn add_port(port: &str, protocol: &str, context: &str) -> (r: Self)
        ensures
            r@ == call_of(
                "semanage"@,
                seq!["port"@, "-a"@, "-t"@, context@, "-p"@, protocol@, port@],
            ),
    {
        let mut arguments = strings3("port", "-a", "-t");
        let label = String::from_str(context);
        let flag = String::from_str("-p");
        let proto = String::from_str(protocol);
        let number = String::from_str(port);
        proof {
            lemma_views_push(arguments@, label);
            lemma_views_push(arguments@.push(label), flag);
            lemma_views_push(arguments@.push(label).push(flag), proto);
            lemma_views_push(arguments@.push(label).push(flag).push(proto), number);
        }
        arguments.push(label);
        arguments.push(flag);
        arguments.push(proto);
        arguments.push(number);
        let r = Self::new("semanage", arguments);
        assert(r@.arguments =~= seq!["port"@, "-a"@, "-t"@, context@, "-p"@, protocol@, port@]);
        r
    }

    /// Deletes the port rule for `port/protocol`.
    pub fn remove_port(port: &str, protocol: &str) -> (r: Self)
        ensures
            r@ == call_of("semanage"@, seq!["port"@, "-d"@, "-p"@, protocol@, port@]),
    {
        let mut arguments = strings3("port", "-d", "-p");
        let proto = String::from_str(protocol);
        let number = String::from_str(port);
        proof {
            lemma_views_push(arguments@, proto);
            lemma_views_push(arguments@.push(proto), number);
        }
        arguments.push(proto);
        arguments.push(number);
        let r = Self::new("semanage", arguments);
        assert(r@.arguments =~= seq!["port"@, "-d"@, "-p"@, protocol@, port@]);
        r
    }

    /// Lists the recent denials in the raw form of the audit log.
    pub fn list_denials() -> (r: Self)
        ensures
            r@ == call_of("ausearch"@, seq!["-m"@, "avc"@, "--raw"@, "-ts"@, "recent"@]),
    {
        let mut arguments = strings3("-m", "avc", "--raw");
        let flag = String::from_str("-ts");
        let since = String::from_str("recent");
        proof {
            lemma_views_push(arguments@, flag);
            lemma_views_push(arguments@.push(flag), since);
        }
        arguments.push(flag);
        arguments.push(since);
        let r = Self::new("ausearch", arguments);
        assert(r@.arguments =~= seq!["-m"@, "avc"@, "--raw"@, "-ts"@, "recent"@]);
        r
    }

    /// Asks for the enforcement mode.
    pub fn get_mode() -> (r: Self)
        ensures
            r@ == call_of("getenforce"@, Seq::<Seq<char>>::empty()),
    {
        let arguments: Vec<String> = Vec::new();
        assert(views(arguments@) =~= Seq::<Seq<char>>::empty());
        Self::new("getenforce", arguments)
    }

    /// Sets the enforcement mode until the next boot.
    pub fn set_mode(argument: &str) -> (r: Self)
        ensures
            r@ == call_of("setenforce"@, seq![argument@]),
    {
        Self::new("setenforce", strings1(argument))
    }

    /// Hands `command` to the shell.
    pub fn shell(command: &str) -> (r: Self)
        ensures
            r@ == call_of("sh"@, seq!["-c"@, command@]),
    {
        Self::new("sh", strings2("-c", command))
    }
}

} // verus!
