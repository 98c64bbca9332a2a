//! The launch wizard: picking a server and an account, and the text it shows.

use vstd::prelude::*;
use crate::config::{AccountConfig, GromnieConfig, ServerConfig};
use crate::text::concat;

verus! {

/// Where the wizard is.
#[derive(Clone, Copy, Debug, PartialEq, Eq, Structural)]
pub enum WizardStage {
    Welcome,
    SelectingServer,
    SelectingAccount,
    Confirming,
    Complete,
}

/// The wizard's state: the configuration's servers and accounts, in name
/// order, and which of each is selected.
#[derive(Clone, Debug)]
pub struct LaunchWizard {
    pub config: GromnieConfig,
    pub stage: WizardStage,
    pub selected_server_idx: usize,
    pub selected_account_idx: usize,
    pub server_list: Vec<(String, ServerConfig)>,
    pub account_list: Vec<(String, AccountConfig)>,
}

/// The list marker of an entry: filled when selected.
pub open spec fn marker(selected: bool) -> Seq<char> {
    if selected { "●"@ } else { "○"@ }
}

/// One line per server, marking the selected one.
pub open spec fn server_lines(servers: Seq<(String, ServerConfig)>, selected: int) -> Seq<Seq<char>> {
    Seq::new(servers.len(), |i: int| "  "@ + marker(i == selected) + " "@ + servers[i].1.display_spec())
}

/// One line per account, marking the selected one.
pub open spec fn account_lines(accounts: Seq<(String, AccountConfig)>, selected: int) -> Seq<Seq<char>> {
    Seq::new(accounts.len(), |i: int| "  "@ + marker(i == selected) + " "@ + accounts[i].1.username@)
}

fn copy_servers(v: &Vec<(String, ServerConfig)>) -> (r: Vec<(String, ServerConfig)>)
    ensures
        r@ == v@,
{
    let mut r: Vec<(String, ServerConfig)> = Vec::new();
    let mut i: usize = 0;
    while i < v.len()
        invariant
            i <= v@.len(),
            r@ == v@.subrange(0, i as int),
        decreases v.len() - i,
    {
        let e = &v[i];
        r.push((e.0.clone(), ServerConfig { host: e.1.host.clone(), port: e.1.port }));
        proof { assert(r@ =~= v@.subrange(0, i as int + 1)); }
        i = i + 1;
    }
    proof { assert(v@.subrange(0, v@.len() as int) =~= v@); }
    r
}

fn copy_optional(s: &Option<String>) -> (r: Option<String>)
    ensures
        r == *s,
{
    match s {
        Some(x) => Some(x.clone()),
        None => None,
    }
}

fn copy_accounts(v: &Vec<(String, AccountConfig)>) -> (r: Vec<(String, AccountConfig)>)
    ensures
        r@ == v@,
{
    let mut r: Vec<(String, AccountConfig)> = Vec::new();
    let mut i: usize = 0;
    while i < v.len()
        invariant
            i <= v@.len(),
            r@ == v@.subrange(0, i as int),
        decreases v.len() - i,
    {
        let e = &v[i];
        r.push((e.0.clone(), AccountConfig {
            username: e.1.username.clone(),
            password: e.1.password.clone(),
            character: copy_optional(&e.1.character),
        }));
        proof { assert(r@ =~= v@.subrange(0, i as int + 1)); }
        i = i + 1;
    }
    proof { assert(v@.subrange(0, v@.len() as int) =~= v@); }
    r
}

impl LaunchWizard {
    /// A wizard at its welcome screen with the first server and account
    /// selected; the configuration must name at least one of each.
    pub fn new(config: GromnieConfig) -> (r: LaunchWizard)
        requires
            config.servers@.len() > 0,
            config.accounts@.len() > 0,
        ensures
            r.stage == WizardStage::Welcome,
            r.selected_server_idx == 0,
            r.selected_account_idx == 0,
            r.server_list@ == config.servers@,
            r.account_list@ == config.accounts@,
            r.config == config,
    {
        let server_list = copy_servers(&config.servers);
        let account_list = copy_accounts(&config.accounts);
        LaunchWizard {
            config,
            stage: WizardStage::Welcome,
            selected_server_idx: 0,
            selected_account_idx: 0,
            server_list,
            account_list,
        }
    }
}

impl LaunchWizard {
    /// The selected server.
    pub fn get_selected_server(&self) -> (r: &ServerConfig)
        requires
            self.selected_server_idx < self.server_list@.len(),
        ensures
            *r == self.server_list@[self.selected_server_idx as int].1,
    {
        &self.server_list[self.selected_server_idx].1
    }

    /// The selected account.
    pub fn get_selected_account(&self) -> (r: &AccountConfig)
        requires
            self.selected_account_idx < self.account_list@.len(),
        ensures
            *r == self.account_list@[self.selected_account_idx as int].1,
    {
        &self.account_list[self.selected_account_idx].1
    }

    /// Whether the lines of the current stage can be shown: every selection
    /// the stage displays exists.
    pub open spec fn displayable(self) -> bool {
        match self.stage {
            WizardStage::Welcome | WizardStage::SelectingServer => true,
            WizardStage::SelectingAccount => self.selected_server_idx < self.server_list@.len(),
            _ => self.selected_server_idx < self.server_list@.len()
                && self.selected_account_idx < self.account_list@.len(),
        }
    }

    /// The text of the wizard for the configuration file at `config_path`, line by line.
    pub open spec fn lines_spec(self, config_path: Seq<char>) -> Seq<Seq<char>> {
        let head = seq!["Welcome to Gromnie!"@, "Config: "@ + config_path, Seq::<char>::empty()];
        let server_done = seq!["* Pick a server"@,
            "  "@ + self.server_list@[self.selected_server_idx as int].1.display_spec(), Seq::<char>::empty()];
        let account_done = seq!["* Pick an account"@,
            "  "@ + self.account_list@[self.selected_account_idx as int].1.username@, Seq::<char>::empty()];
        match self.stage {
            WizardStage::Welcome => head,
            WizardStage::SelectingServer => head + seq!["? Pick a server"@]
                + server_lines(self.server_list@, self.selected_server_idx as int),
            WizardStage::SelectingAccount => head + server_done + seq!["? Pick an account"@]
                + account_lines(self.account_list@, self.selected_account_idx as int),
            WizardStage::Confirming => head + server_done + account_done + seq!["? Ready to log in? <enter>"@],
            WizardStage::Complete => head + server_done + account_done,
        }
    }

    /// The text of the wizard for the configuration file at `config_path`, line by line.
    pub fn lines(&self, config_path: &str) -> (r: Vec<String>)
        requires
            self.displayable(),
        ensures
            r@.map_values(|l: String| l@) == self.lines_spec(config_path@),
    {
        let mut out: Vec<String> = Vec::new();
        out.push("Welcome to Gromnie!".to_owned());
        let c = "Config: ".to_owned();
        out.push(concat(&c, config_path));
        out.push(String::new());
        let ghost head = out@.map_values(|l: String| l@);
        proof {
            assert(head =~= seq!["Welcome to Gromnie!"@, "Config: "@ + config_path@, Seq::<char>::empty()]);
        }
        match self.stage {
            WizardStage::Welcome => {},
            WizardStage::SelectingServer => {
                out.push("? Pick a server".to_owned());
                let ghost base = out@.map_values(|l: String| l@);
                let mut i: usize = 0;
                while i < self.server_list.len()
                    invariant
                        i <= self.server_list@.len(),
                        out@.map_values(|l: String| l@) == base
                            + server_lines(self.server_list@, self.selected_server_idx as int).subrange(0, i as int),
                    decreases self.server_list.len() - i,
                {
                    let m = if i == self.selected_server_idx { "●" } else { "○" };
                    let t = concat(&"  ".to_owned(), m);
                    let t = concat(&t, " ");
                    let d = self.server_list[i].1.display();
                    let line = concat(&t, d.as_str());
                    let ghost before = out@;
                    out.push(line);
                    proof {
                        assert(m@ == marker(i as int == self.selected_server_idx as int));
                        assert(line@ == server_lines(self.server_list@, self.selected_server_idx as int)[i as int]);
                        assert(out@.map_values(|l: String| l@) =~= before.map_values(|l: String| l@).push(line@));
                        assert(out@.map_values(|l: String| l@) =~= base
                            + server_lines(self.server_list@, self.selected_server_idx as int).subrange(0, i as int + 1));
                    }
                    i = i + 1;
                }
                proof {
                    assert(server_lines(self.server_list@, self.selected_server_idx as int).subrange(0, self.server_list@.len() as int)
                        =~= server_lines(self.server_list@, self.selected_server_idx as int));
                }
            },
            _ => {
                out.push("* Pick a server".to_owned());
                let d = self.server_list[self.selected_server_idx].1.display();
                out.push(concat(&"  ".to_owned(), d.as_str()));
                out.push(String::new());
                if self.stage == WizardStage::SelectingAccount {
                    out.push("? Pick an account".to_owned());
                    let ghost base = out@.map_values(|l: String| l@);
                    let mut i: usize = 0;
                    while i < self.account_list.len()
                        invariant
                            i <= self.account_list@.len(),
                            out@.map_values(|l: String| l@) == base
                                + account_lines(self.account_list@, self.selected_account_idx as int).subrange(0, i as int),
                        decreases self.account_list.len() - i,
                    {
                        let m = if i == self.selected_account_idx { "●" } else { "○" };
                        let t = concat(&"  ".to_owned(), m);
                        let t = concat(&t, " ");
                        let line = concat(&t, self.account_list[i].1.username.as_str());
                        let ghost before = out@;
                        out.push(line);
                        proof {
                            assert(m@ == marker(i as int == self.selected_account_idx as int));
                            assert(line@ == account_lines(self.account_list@, self.selected_account_idx as int)[i as int]);
                            assert(out@.map_values(|l: String| l@) =~= before.map_values(|l: String| l@).push(line@));
                            assert(out@.map_values(|l: String| l@) =~= base
                                + account_lines(self.account_list@, self.selected_account_idx as int).subrange(0, i as int + 1));
                        }
                        i = i + 1;
                    }
                    proof {
                        assert(account_lines(self.account_list@, self.selected_account_idx as int).subrange(0, self.account_list@.len() as int)
                            =~= account_lines(self.account_list@, self.selected_account_idx as int));
                    }
                } else {
                    out.push("* Pick an account".to_owned());
                    let u = &self.account_list[self.selected_account_idx].1.username;
                    out.push(concat(&"  ".to_owned(), u.as_str()));
                    out.push(String::new());
                    if self.stage == WizardStage::Confirming {
                        out.push("? Ready to log in? <enter>".to_owned());
                    }
                }
            },
        }
        proof {
            assert(out@.map_values(|l: String| l@) =~= self.lines_spec(config_path@));
        }
        out
    }
}

} // verus!
