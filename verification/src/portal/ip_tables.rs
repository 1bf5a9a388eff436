//! The firewall rules that bring every client of the access point to the
//! portal, and the order in which they are installed.

use crate::error::SetupError;
use vstd::prelude::*;
use vstd::string::*;

verus! {

/// A rule to append to a chain of a firewall table.
#[derive(Debug, PartialEq, Eq)]
pub struct FirewallRule {
    pub table: String,
    pub chain: String,
    pub rule: String,
}

/// What a rule holds.
pub struct RuleModel {
    pub table: Seq<char>,
    pub chain: Seq<char>,
    pub rule: Seq<char>,
}

impl View for FirewallRule {
    type V = RuleModel;

    open spec fn view(&self) -> RuleModel {
        RuleModel { table: self.table@, chain: self.chain@, rule: self.rule@ }
    }
}

/// The rule that rewrites the destination of TCP traffic which arrives on
/// `interface` for `port` to the portal.
pub open spec fn dnat_rule(interface: Seq<char>, port: Seq<char>, portal_addr: Seq<char>) -> Seq<
    char,
> {
    "-i "@ + interface + " -p tcp --dport "@ + port + " -j DNAT --to-destination "@ + portal_addr
}

/// The three rules of traffic redirection, in the order in which they are
/// installed: HTTP and HTTPS traffic that arrives on the access point's
/// interface goes to the portal, and all outbound traffic is masqueraded.
pub open spec fn redirect_rules(interface: Seq<char>, portal_addr: Seq<char>) -> Seq<RuleModel> {
    seq![
        RuleModel {
            table: "nat"@,
            chain: "PREROUTING"@,
            rule: dnat_rule(interface, "80"@, portal_addr),
        },
        RuleModel {
            table: "nat"@,
            chain: "PREROUTING"@,
            rule: dnat_rule(interface, "443"@, portal_addr),
        },
        RuleModel { table: "nat"@, chain: "POSTROUTING"@, rule: "-j MASQUERADE"@ },
    ]
}

/// The installation of the redirect rules, one at a time and in order. It ends
/// when every rule is installed, or with the first rule that could not be.
#[derive(Debug, PartialEq, Eq)]
pub struct Redirector {
    /// The rules, in the order of installation.
    pub rules: Vec<FirewallRule>,
    /// How many of them are installed.
    pub installed: usize,
    /// Whether a rule could not be installed.
    pub failed: bool,
}

impl Redirector {
    /// The rules as plain values.
    pub open spec fn rule_models(&self) -> Seq<RuleModel> {
        self.rules@.map_values(|r: FirewallRule| r@)
    }

    /// The position of the rule to install next, while there is one.
    pub open spec fn pending_index(&self) -> Option<int> {
        if !self.failed && self.installed < self.rules.len() {
            Some(self.installed as int)
        } else {
            None
        }
    }

    /// The state after the attempt at the pending rule went as `appended` says.
    /// Without a pending rule nothing changes.
    pub open spec fn recorded(self, appended: bool) -> Redirector {
        if self.pending_index() is None {
            self
        } else if appended {
            Redirector { rules: self.rules, installed: (self.installed + 1) as usize, failed: false }
        } else {
            Redirector { rules: self.rules, installed: self.installed, failed: true }
        }
    }

    /// The state after a run of attempts, each at the rule then pending.
    pub open spec fn after(self, outcomes: Seq<bool>) -> Redirector
        decreases outcomes.len(),
    {
        if outcomes.len() == 0 {
            self
        } else {
            self.recorded(outcomes[0]).after(outcomes.drop_first())
        }
    }

    /// The rule to install next; `None` once all are installed or one has
    /// failed.
    pub fn pending(&self) -> (rule: Option<&FirewallRule>)
        ensures
            match rule {
                Some(rule) => self.pending_index() == Some(self.installed as int) && *rule
                    == self.rules@[self.installed as int],
                None => self.pending_index() is None,
            },
    {
        if !self.failed && self.installed < self.rules.len() {
            Some(&self.rules[self.installed])
        } else {
            None
        }
    }

    /// Records how the attempt at the pending rule went. A failure ends the
    /// installation: the rules after it are not attempted.
    pub fn record(&mut self, appended: bool)
        ensures
            *final(self) == old(self).recorded(appended),
    {
        if !self.failed && self.installed < self.rules.len() {
            if appended {
                self.installed = self.installed + 1;
            } else {
                self.failed = true;
            }
        }
    }

    /// How the installation ended: `None` while a rule is pending, `Ok` once
    /// every rule is installed, the firewall error once one has failed.
    pub fn outcome(&self) -> (outcome: Option<Result<(), SetupError>>)
        ensures
            outcome is None <==> self.pending_index() is Some,
            outcome == Some(Err::<(), SetupError>(SetupError::Firewall)) <==> self.failed,
            outcome == Some(Ok::<(), SetupError>(())) <==> !self.failed && self.installed
                >= self.rules@.len(),
    {
        if self.failed {
            Some(Err(SetupError::Firewall))
        } else if self.installed < self.rules.len() {
            None
        } else {
            Some(Ok(()))
        }
    }
}

fn dnat_text(interface_name: &str, port: &str, portal_addr: &str) -> (rule: String)
    ensures
        rule@ == dnat_rule(interface_name@, port@, portal_addr@),
{
    let mut rule = "-i ".to_owned();
    rule.append(interface_name);
    rule.append(" -p tcp --dport ");
    rule.append(port);
    rule.append(" -j DNAT --to-destination ");
    rule.append(portal_addr);
    rule
}

/// Plans traffic redirection for the access point on `interface_name` and the
/// portal at `portal_addr`, an `address:port`: the three rules, none of them
/// installed yet.
pub fn configure_iptables(interface_name: &str, portal_addr: &str) -> (redirector: Redirector)
    ensures
        redirector.rule_models() == redirect_rules(interface_name@, portal_addr@),
        redirector.rules@.len() == 3,
        redirector.installed == 0,
        !redirector.failed,
{
    let mut rules: Vec<FirewallRule> = Vec::new();
    rules.push(
        FirewallRule {
            table: "nat".to_owned(),
            chain: "PREROUTING".to_owned(),
            rule: dnat_text(interface_name, "80", portal_addr),
        },
    );
    rules.push(
        FirewallRule {
            table: "nat".to_owned(),
            chain: "PREROUTING".to_owned(),
            rule: dnat_text(interface_name, "443", portal_addr),
        },
    );
    rules.push(
        FirewallRule {
            table: "nat".to_owned(),
            chain: "POSTROUTING".to_owned(),
            rule: "-j MASQUERADE".to_owned(),
        },
    );
    let redirector = Redirector { rules, installed: 0, failed: false };
    assert(redirector.rule_models() =~= redirect_rules(interface_name@, portal_addr@));
    redirector
}

/// While every attempt succeeds, the rules are attempted in their order: after
/// `n` successes, `n` rules are installed and the next one is pending.
pub proof fn lemma_rules_in_order(redirector: Redirector, outcomes: Seq<bool>)
    requires
        redirector.installed == 0,
        !redirector.failed,
        outcomes.len() <= redirector.rules@.len(),
        forall|i: int| 0 <= i < outcomes.len() ==> outcomes[i],
    ensures
        redirector.after(outcomes).installed == outcomes.len(),
        !redirector.after(outcomes).failed,
        redirector.after(outcomes).rules == redirector.rules,
{
    lemma_successes(redirector, outcomes);
}

proof fn lemma_successes(redirector: Redirector, outcomes: Seq<bool>)
    requires
        !redirector.failed,
        redirector.installed + outcomes.len() <= redirector.rules@.len(),
        forall|i: int| 0 <= i < outcomes.len() ==> outcomes[i],
    ensures
        redirector.after(outcomes).installed == redirector.installed + outcomes.len(),
        !redirector.after(outcomes).failed,
        redirector.after(outcomes).rules == redirector.rules,
    decreases outcomes.len(),
{
    if outcomes.len() > 0 {
        lemma_successes(redirector.recorded(outcomes[0]), outcomes.drop_first());
    }
}

proof fn lemma_stopped(redirector: Redirector, outcomes: Seq<bool>)
    requires
        redirector.pending_index() is None,
    ensures
        redirector.after(outcomes) == redirector,
    decreases outcomes.len(),
{
    if outcomes.len() > 0 {
        lemma_stopped(redirector, outcomes.drop_first());
    }
}

/// A failure ends the installation before the next rule is attempted: if the
/// attempt at rule `k` fails after `k` successes, then whatever is recorded
/// afterwards, `k` rules stay installed and none is pending.
pub proof fn lemma_failure_aborts(redirector: Redirector, outcomes: Seq<bool>, k: int)
    requires
        redirector.installed == 0,
        !redirector.failed,
        0 <= k < outcomes.len(),
        k < redirector.rules@.len(),
        forall|i: int| 0 <= i < k ==> outcomes[i],
        !outcomes[k],
    ensures
        redirector.after(outcomes).failed,
        redirector.after(outcomes).installed == k,
        redirector.after(outcomes).pending_index() is None,
{
    lemma_failure_from(redirector, outcomes, k);
}

proof fn lemma_failure_from(redirector: Redirector, outcomes: Seq<bool>, k: int)
    requires
        !redirector.failed,
        0 <= k < outcomes.len(),
        redirector.installed + k < redirector.rules@.len(),
        forall|i: int| 0 <= i < k ==> outcomes[i],
        !outcomes[k],
    ensures
        redirector.after(outcomes).failed,
        redirector.after(outcomes).installed == redirector.installed + k,
    decreases outcomes.len(),
{
    if k == 0 {
        lemma_stopped(redirector.recorded(false), outcomes.drop_first());
    } else {
        let rest = outcomes.drop_first();
        assert(forall|i: int| 0 <= i < k - 1 ==> rest[i] == outcomes[i + 1]);
        lemma_failure_from(redirector.recorded(outcomes[0]), rest, k - 1);
    }
}

} // verus!
