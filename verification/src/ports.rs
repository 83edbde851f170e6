//! Network-port rules: which label a port of a protocol carries.

use crate::model::{lemma_filter_push, lemma_views_push, views};
use crate::pattern::{
    collected,
    group,
    group_text,
    groups_view,
    lemma_collected_step,
    matches_view,
    matching_lines,
    pattern_compiles,
    Pattern,
    PatternError,
};
use crate::text::lines_of;
use vstd::prelude::*;
use vstd::string::*;

verus! {

/// One port rule.
#[derive(Debug, Clone)]
pub struct PortContext {
    pub port: String,
    pub protocol: String,
    pub context: String,
}

/// The mathematical value of a `PortContext`.
pub struct PortContextView {
    pub port: Seq<char>,
    pub protocol: Seq<char>,
    pub context: Seq<char>,
}

impl View for PortContext {
    type V = PortContextView;

    open spec fn view(&self) -> PortContextView {
        PortContextView { port: self.port@, protocol: self.protocol@, context: self.context@ }
    }
}

/// The text of the command that adds the rule `port/protocol -> context`.
pub open spec fn add_port_text(port: Seq<char>, protocol: Seq<char>, context: Seq<char>) -> Seq<
    char,
> {
    "semanage port -a -t "@ + context + " -p "@ + protocol + " "@ + port
}

/// The text of the command that deletes the rule for `port/protocol`.
pub open spec fn delete_port_text(port: Seq<char>, protocol: Seq<char>) -> Seq<char> {
    "semanage port -d -p "@ + protocol + " "@ + port
}

/// The command that adds the rule `port/protocol -> context`.
pub fn add_port_command(port: &str, protocol: &str, context: &str) -> (r: String)
    ensures
        r@ == add_port_text(port@, protocol@, context@),
{
    let mut r = String::from_str("semanage port -a -t ");
    r.append(context);
    r.append(" -p ");
    r.append(protocol);
    r.append(" ");
    r.append(port);
    r
}

/// The command that deletes the rule for `port/protocol`.
pub fn delete_port_command(port: &str, protocol: &str) -> (r: String)
    ensures
        r@ == delete_port_text(port@, protocol@),
{
    let mut r = String::from_str("semanage port -d -p ");
    r.append(protocol);
    r.append(" ");
    r.append(port);
    r
}

/// The canonical string of the rule `port/protocol -> context`.
pub open spec fn port_rule(port: Seq<char>, protocol: Seq<char>, context: Seq<char>) -> Seq<char> {
    port + "/"@ + protocol + ":"@ + context
}

/// Keeps the list of the port rules.
#[derive(Debug, Clone)]
pub struct PortManager {
    pub ports: Vec<PortContext>,
}

impl PortContext {
    /// The rule in its canonical form `port/protocol:label`.
    pub fn canonical(&self) -> (r: String)
        ensures
            r@ == port_rule(self@.port, self@.protocol, self@.context),
    {
        let mut r = self.port.clone();
        r.append("/");
        r.append(self.protocol.as_str());
        r.append(":");
        r.append(self.context.as_str());
        r
    }
}

impl PortManager {
    /// A manager without rules.
    pub fn new() -> (r: Self)
        ensures
            r.ports@ == Seq::<PortContext>::empty(),
    {
        PortManager { ports: Vec::new() }
    }

    /// Replaces the list by the rule of the simulated system.
    pub fn load_simulation_data(&mut self)
        ensures
            views(final(self).ports@) == seq![
                PortContextView { port: "80"@, protocol: "tcp"@, context: "http_port_t"@ },
            ],
    {
        self.ports = vec![
            PortContext {
                port: String::from_str("80"),
                protocol: String::from_str("tcp"),
                context: String::from_str("http_port_t"),
            },
        ];
        assert(views(self.ports@) =~= seq![
            PortContextView { port: "80"@, protocol: "tcp"@, context: "http_port_t"@ },
        ]);
    }

    /// Whether a rule for `port` and `protocol` is in the list.
    pub fn has_port(&self, port: &str, protocol: &str) -> (r: bool)
        ensures
            r == exists|i: int|
                0 <= i < self.ports.len() && (#[trigger] views(self.ports@)[i]).port == port@
                    && views(self.ports@)[i].protocol == protocol@,
    {
        let wanted_port = String::from_str(port);
        let wanted_protocol = String::from_str(protocol);
        let mut i: usize = 0;
        while i < self.ports.len()
            invariant
                i <= self.ports.len(),
                wanted_port@ == port@,
                wanted_protocol@ == protocol@,
                forall|j: int|
                    0 <= j < i ==> !((#[trigger] views(self.ports@)[j]).port == port@ && views(
                        self.ports@,
                    )[j].protocol == protocol@),
            decreases self.ports.len() - i,
        {
            if self.ports[i].port == wanted_port && self.ports[i].protocol == wanted_protocol {
                assert(views(self.ports@)[i as int].port == port@);
                return true;
            }
            i += 1;
        }
        false
    }

    /// Adds the rule `port/protocol -> context` at the end of the list.
    pub fn add_port(&mut self, port: &str, protocol: &str, context: &str)
        ensures
            views(final(self).ports@) == views(old(self).ports@).push(
                PortContextView { port: port@, protocol: protocol@, context: context@ },
            ),
    {
        let rule = PortContext {
            port: String::from_str(port),
            protocol: String::from_str(protocol),
            context: String::from_str(context),
        };
        proof {
            lemma_views_push(self.ports@, rule);
        }
        self.ports.push(rule);
    }

    /// Drops every rule for `port` and `protocol`.
    pub fn remove_port(&mut self, port: &str, protocol: &str)
        ensures
            views(final(self).ports@) == views(old(self).ports@).filter(
                |p: PortContextView| p.port != port@ || p.protocol != protocol@,
            ),
    {
        let wanted_port = String::from_str(port);
        let wanted_protocol = String::from_str(protocol);
        let ghost keep = |p: PortContextView| p.port != port@ || p.protocol != protocol@;
        let ghost all = views(self.ports@);
        let mut kept: Vec<PortContext> = Vec::new();
        let mut rest: Vec<PortContext> = Vec::new();
        std::mem::swap(&mut rest, &mut self.ports);
        let mut i: usize = 0;
        let n = rest.len();
        assert(all.take(0) =~= Seq::<PortContextView>::empty());
        assert(views(kept@) =~= Seq::<PortContextView>::empty());
        while i < n
            invariant
                i <= n,
                n == rest.len(),
                wanted_port@ == port@,
                wanted_protocol@ == protocol@,
                keep == |p: PortContextView| p.port != port@ || p.protocol != protocol@,
                all.len() == n,
                forall|k: int| i <= k < n ==> rest@[k]@ == all[k],
                views(kept@) == all.take(i as int).filter(keep),
            decreases n - i,
        {
            let mut rule = PortContext {
                port: String::new(),
                protocol: String::new(),
                context: String::new(),
            };
            std::mem::swap(&mut rule, &mut rest[i]);
            proof {
                assert(all.take(i + 1) =~= all.take(i as int).push(rule@));
                lemma_filter_push(all.take(i as int), rule@, keep);
                lemma_views_push(kept@, rule);
            }
            if rule.port != wanted_port || rule.protocol != wanted_protocol {
                kept.push(rule);
            }
            i += 1;
        }
        assert(all.take(n as int) =~= all);
        self.ports = kept;
    }

    /// The rules in their canonical form, in order.
    pub fn canonical_rules(&self) -> (r: Vec<String>)
        ensures
            views(r@) == views(self.ports@).map_values(
                |p: PortContextView| port_rule(p.port, p.protocol, p.context),
            ),
    {
        let mut r: Vec<String> = Vec::new();
        let mut i: usize = 0;
        while i < self.ports.len()
            invariant
                i <= self.ports.len(),
                views(r@) =~= views(self.ports@).map_values(
                    |p: PortContextView| port_rule(p.port, p.protocol, p.context),
                ).take(i as int),
            decreases self.ports.len() - i,
        {
            let rule = self.ports[i].canonical();
            proof {
                lemma_views_push(r@, rule);
            }
            r.push(rule);
            i += 1;
        }
        r
    }
}

/// The pattern of a line of the port listing: a label, a protocol, a
/// sensitivity, and a port or a range of ports.
pub open spec fn port_pattern() -> Seq<char> {
    "^(\\S+)\\s+(\\S+)\\s+(\\S+)\\s+(\\d+(?:-\\d+)?)$"@
}

/// The rule that a match of the listing's pattern stands for: the label of
/// the first group, the protocol of the second and the port of the fourth.
/// A match that lacks one of them stands for none.
pub open spec fn port_of_match(groups: Seq<Option<Seq<char>>>) -> Option<PortContextView> {
    match (group_text(groups, 1), group_text(groups, 2), group_text(groups, 4)) {
        (Some(context), Some(protocol), Some(port)) => Some(
            PortContextView { port, protocol, context },
        ),
        _ => None,
    }
}

/// `port_of_match` as a function value.
pub open spec fn read_port() -> spec_fn(Seq<Option<Seq<char>>>) -> Option<PortContextView> {
    |groups: Seq<Option<Seq<char>>>| port_of_match(groups)
}

impl PortManager {
    /// The rule that the groups of one match of the listing stand for.
    pub fn port_of(groups: &Vec<Option<String>>) -> (r: Option<PortContext>)
        ensures
            match r {
                Some(p) => port_of_match(groups_view(groups@)) == Some(p@),
                None => port_of_match(groups_view(groups@)) is None,
            },
    {
        match (group(groups, 1), group(groups, 2), group(groups, 4)) {
            (Some(context), Some(protocol), Some(port)) => Some(
                PortContext { port, protocol, context },
            ),
            _ => None,
        }
    }

    /// The rules that the matches of the listing stand for, in order.
    pub fn ports_of(matches: &Vec<Vec<Option<String>>>) -> (r: Vec<PortContext>)
        ensures
            views(r@) == collected(matches_view(matches@), read_port()),
    {
        let mut r: Vec<PortContext> = Vec::new();
        let mut i: usize = 0;
        let ghost all = matches_view(matches@);
        assert(all.take(0) =~= Seq::<Seq<Option<Seq<char>>>>::empty());
        assert(views(r@) =~= Seq::<PortContextView>::empty());
        while i < matches.len()
            invariant
                i <= matches.len(),
                all == matches_view(matches@),
                views(r@) == collected(all.take(i as int), read_port()),
            decreases matches.len() - i,
        {
            proof {
                lemma_collected_step(all, read_port(), i as int);
            }
            match Self::port_of(&matches[i]) {
                Some(rule) => {
                    proof {
                        lemma_views_push(r@, rule);
                    }
                    r.push(rule);
                },
                None => {},
            }
            i += 1;
        }
        assert(all.take(matches.len() as int) =~= all);
        r
    }

    /// Replaces the list by the rules that `listing`, the output of the port
    /// listing, reports. Fails, and leaves the list as it is, exactly where
    /// the pattern of the listing is not accepted.
    pub fn load_ports(&mut self, listing: &str) -> (r: Result<(), PatternError>)
        ensures
            r is Ok <==> pattern_compiles(port_pattern()),
            r is Ok ==> views(final(self).ports@) == collected(
                matching_lines(port_pattern(), lines_of(listing@)),
                read_port(),
            ),
            r is Err ==> final(self).ports == old(self).ports,
    {
        let pattern = match Pattern::new("^(\\S+)\\s+(\\S+)\\s+(\\S+)\\s+(\\d+(?:-\\d+)?)$") {
            Ok(p) => p,
            Err(e) => {
                return Err(e);
            },
        };
        let matches = pattern.line_matches(listing);
        self.ports = Self::ports_of(&matches);
        Ok(())
    }
}

} // verus!
