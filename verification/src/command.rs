//! The closed set of commands the bot understands, and the parser that
//! reads one from the text of an inbound message.

use vstd::prelude::*;
use vstd::string::*;
use crate::text::{split_at_char, split_str, str_eq, views_of};

verus! {

/// A parsed inbound command.
pub enum Command {
    /// List the supported commands.
    Help,
    /// Liveness check.
    Ping,
    /// Demonstrate an inline keyboard whose buttons carry callback payloads.
    CallbackTest,
    /// Set a reminder from five cron-style schedule fields. The feature is
    /// unfinished: the fields are collected and joined, but no job is ever
    /// scheduled.
    SetReminder {
        minute: String,
        hour: String,
        day_of_month: String,
        month: String,
        day_of_week: String,
    },
}

/// The mathematical shape of a command: its fields as character sequences.
pub enum CommandView {
    Help,
    Ping,
    CallbackTest,
    SetReminder {
        minute: Seq<char>,
        hour: Seq<char>,
        day_of_month: Seq<char>,
        month: Seq<char>,
        day_of_week: Seq<char>,
    },
}

impl View for Command {
    type V = CommandView;

    open spec fn view(&self) -> CommandView {
        match self {
            Command::Help => CommandView::Help,
            Command::Ping => CommandView::Ping,
            Command::CallbackTest => CommandView::CallbackTest,
            Command::SetReminder { minute, hour, day_of_month, month, day_of_week } => (
            CommandView::SetReminder {
                minute: minute@,
                hour: hour@,
                day_of_month: day_of_month@,
                month: month@,
                day_of_week: day_of_week@,
            }),
        }
    }
}

/// The command grammar. The message text, split on single spaces, must be
/// one bare command word, or the reminder word followed by exactly five
/// schedule fields.
pub open spec fn parse_spec(s: Seq<char>) -> Option<CommandView> {
    let parts = split_at_char(s, ' ');
    if parts.len() == 1 && parts[0] == "/help"@ {
        Some(CommandView::Help)
    } else if parts.len() == 1 && parts[0] == "/ping"@ {
        Some(CommandView::Ping)
    } else if parts.len() == 1 && parts[0] == "/callbacktest"@ {
        Some(CommandView::CallbackTest)
    } else if parts.len() == 6 && parts[0] == "/setreminder"@ {
        Some(
            CommandView::SetReminder {
                minute: parts[1],
                hour: parts[2],
                day_of_month: parts[3],
                month: parts[4],
                day_of_week: parts[5],
            },
        )
    } else {
        None
    }
}

/// Reads a command from the text of an inbound message; `None` is an
/// unrecognized input.
pub fn parse_command(text: &str) -> (r: Option<Command>)
    ensures
        match r {
            Some(c) => parse_spec(text@) == Some(c@),
            None => parse_spec(text@) is None,
        },
{
    let parts = split_str(text, ' ');
    proof {
        assert(views_of(parts@).len() == parts@.len());
        assert forall|k: int| 0 <= k < parts@.len() implies views_of(parts@)[k] == parts@[k]@ by {
        }
    }
    if parts.len() == 1 {
        if str_eq(parts[0].as_str(), "/help") {
            return Some(Command::Help);
        }
        if str_eq(parts[0].as_str(), "/ping") {
            return Some(Command::Ping);
        }
        if str_eq(parts[0].as_str(), "/callbacktest") {
            return Some(Command::CallbackTest);
        }
        None
    } else if parts.len() == 6 {
        if str_eq(parts[0].as_str(), "/setreminder") {
            Some(
                Command::SetReminder {
                    minute: parts[1].clone(),
                    hour: parts[2].clone(),
                    day_of_month: parts[3].clone(),
                    month: parts[4].clone(),
                    day_of_week: parts[5].clone(),
                },
            )
        } else {
            None
        }
    } else {
        None
    }
}

impl Command {
    /// The five schedule fields joined into one cron expression, for the
    /// reminder command alone. The reminder feature stops here: nothing
    /// consumes the expression, no job is registered and none fires.
    pub fn schedule_expression(&self) -> (r: Option<String>)
        ensures
            match self@ {
                CommandView::SetReminder { minute, hour, day_of_month, month, day_of_week } => (
                r matches Some(e) && e@ == minute + seq![' '] + hour + seq![' '] + day_of_month
                    + seq![' '] + month + seq![' '] + day_of_week),
                _ => r is None,
            },
    {
        match self {
            Command::SetReminder { minute, hour, day_of_month, month, day_of_week } => {
                let mut e = minute.clone();
                e.append(" ");
                e.append(hour.as_str());
                e.append(" ");
                e.append(day_of_month.as_str());
                e.append(" ");
                e.append(month.as_str());
                e.append(" ");
                e.append(day_of_week.as_str());
                proof {
                    reveal_strlit(" ");
                    assert(" "@ =~= seq![' ']);
                }
                Some(e)
            },
            _ => None,
        }
    }
}

} // verus!
