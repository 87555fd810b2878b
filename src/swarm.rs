//! The swarm: its fixed configuration and the one-time assignment of a
//! visit target to each account.
use vstd::prelude::*;

use crate::account::AccountState;
use crate::decision::opt_text;
use crate::text::{eq_ignore_ascii_case, eq_ignore_ascii_case_seq, text_equals};

verus! {

/// The name and unique id of one account.
#[derive(Clone, Debug, PartialEq, Eq)]
pub struct AccountIdentity {
    pub name: String,
    pub uuid: u128,
}

/// What every account of the swarm shares, read once at startup.
#[derive(Clone, Debug, PartialEq, Eq)]
pub struct SwarmConfig {
    /// The player whose island the other accounts visit.
    pub destination_name: String,
    /// Seconds between two accounts joining.
    pub join_delay_secs: u64,
    pub accounts: Vec<AccountIdentity>,
}

/// Why a configuration cannot start.
#[derive(Clone, Copy, Debug, PartialEq, Eq, Structural)]
pub enum ConfigError {
    NoAccounts,
}

/// The visit target of the account called `account`: none for the owner
/// of the destination (names compared without ASCII case), the destination
/// for everyone else.
pub open spec fn target_spec(account: Seq<char>, destination: Seq<char>) -> Option<Seq<char>> {
    if eq_ignore_ascii_case_seq(account, destination) {
        None
    } else {
        Some(destination)
    }
}

/// The visit target of the account called `account_name`.
pub fn target_for(account_name: &str, destination: &str) -> (r: Option<String>)
    ensures
        opt_text(r) == target_spec(account_name@, destination@),
{
    if eq_ignore_ascii_case(account_name, destination) {
        None
    } else {
        Some(String::from_str(destination))
    }
}

impl SwarmConfig {
    /// A swarm needs at least one account.
    pub fn check(&self) -> (r: Result<(), ConfigError>)
        ensures
            r == (if self.accounts@.len() == 0 {
                Err::<(), ConfigError>(ConfigError::NoAccounts)
            } else {
                Ok(())
            }),
    {
        if self.accounts.len() == 0 {
            Err(ConfigError::NoAccounts)
        } else {
            Ok(())
        }
    }

    /// Whether some account has exactly the destination's name.
    pub fn destination_is_listed(&self) -> (r: bool)
        ensures
            r == exists|i: int|
                0 <= i < self.accounts@.len() && #[trigger] self.accounts@[i].name@ == self.destination_name@,
    {
        let mut i: usize = 0;
        while i < self.accounts.len()
            invariant
                0 <= i <= self.accounts@.len(),
                forall|j: int| 0 <= j < i ==> #[trigger] self.accounts@[j].name@ != self.destination_name@,
            decreases self.accounts@.len() - i,
        {
            if text_equals(self.accounts[i].name.as_str(), self.destination_name.as_str()) {
                return true;
            }
            i = i + 1;
        }
        false
    }

    /// The starting state of each account, in the order of `accounts`:
    /// both timers inactive and the target assigned by `target_for`.
    pub fn initial_states(&self) -> (r: Vec<AccountState>)
        ensures
            r@.len() == self.accounts@.len(),
            forall|i: int|
                0 <= i < r@.len() ==> {
                    &&& (#[trigger] r@[i]).world_spawn_timer.is_none()
                    &&& r@[i].screen_open_timer.is_none()
                    &&& opt_text(r@[i].target) == target_spec(
                        self.accounts@[i].name@,
                        self.destination_name@,
                    )
                },
    {
        let mut out: Vec<AccountState> = Vec::new();
        let mut i: usize = 0;
        while i < self.accounts.len()
            invariant
                0 <= i <= self.accounts@.len(),
                out@.len() == i,
                forall|k: int|
                    0 <= k < i ==> {
                        &&& (#[trigger] out@[k]).world_spawn_timer.is_none()
                        &&& out@[k].screen_open_timer.is_none()
                        &&& opt_text(out@[k].target) == target_spec(
                            self.accounts@[k].name@,
                            self.destination_name@,
                        )
                    },
            decreases self.accounts@.len() - i,
        {
            let target = target_for(self.accounts[i].name.as_str(), self.destination_name.as_str());
            out.push(AccountState::new(target));
            i = i + 1;
        }
        out
    }
}

} // verus!
