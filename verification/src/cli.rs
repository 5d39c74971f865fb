//! The command line as plain values, and what each command sets in motion.

use crate::poller::PollerConfig;
use vstd::prelude::*;

verus! {

/// The subcommands.
#[derive(Clone, Copy, Debug, PartialEq, Eq)]
pub enum Command {
    /// Watch the catalog, announce new gifts and, with `buy`, buy them.
    Start { ignore_not_limited: bool, buy: bool, buy_limit: Option<u64> },
    /// Buy one gift right away.
    BuyGift { gift_id: i64, limit: Option<u64> },
    /// Sign every configured account in.
    Login,
}

/// The parsed command line.
#[derive(Clone, Copy, Debug, PartialEq, Eq)]
pub struct Cli {
    pub command: Command,
}

/// What the program does for a command line.
#[derive(Clone, Debug, PartialEq, Eq)]
pub enum Task {
    /// Run the poller under this configuration.
    Watch(PollerConfig),
    /// Run one purchase round for these gifts, prices still to be fetched.
    Buy { gift_ids: Vec<i64>, limit: Option<u64> },
    /// Sign in and leave.
    Login,
}

impl Cli {
    /// Tells what to do for this command line. `max_supply` comes from the
    /// environment, not from the command line, and is read for `Start` only.
    pub fn task(&self, max_supply: i32) -> (task: Task)
        ensures
            match (self.command, task) {
                (Command::Start { ignore_not_limited, buy, buy_limit }, Task::Watch(config)) => {
                    config == (PollerConfig {
                        include_unlimited: ignore_not_limited,
                        purchase_enabled: buy,
                        attempt_limit: buy_limit,
                        max_supply,
                    })
                },
                (Command::BuyGift { gift_id, limit }, Task::Buy { gift_ids, limit: task_limit }) => {
                    gift_ids@ == seq![gift_id] && task_limit == limit
                },
                (Command::Login, Task::Login) => true,
                _ => false,
            },
    {
        match self.command {
            Command::Start { ignore_not_limited, buy, buy_limit } => Task::Watch(
                PollerConfig {
                    include_unlimited: ignore_not_limited,
                    purchase_enabled: buy,
                    attempt_limit: buy_limit,
                    max_supply,
                },
            ),
            Command::BuyGift { gift_id, limit } => {
                let mut gift_ids: Vec<i64> = Vec::new();
                gift_ids.push(gift_id);
                Task::Buy { gift_ids, limit }
            },
            Command::Login => Task::Login,
        }
    }
}

} // verus!
