//! The command router: decides the one outbound action owed for each
//! inbound message, and builds the inline keyboard for the callback demo.

use vstd::prelude::*;
use vstd::string::*;
use crate::command::{parse_command, parse_spec, Command, CommandView};
use crate::ident::{is_alphanumeric_char, is_token, lemma_token_free_of_delimiter,
    random_alphanumeric};
use crate::text::{count_char, lemma_count_char_concat};

verus! {

/// One inline keyboard button: a visible label and the payload handed back
/// when the button is pressed.
pub struct Button {
    pub label: String,
    pub payload: String,
}

/// The shape of a button: its two strings as character sequences.
pub struct ButtonView {
    pub label: Seq<char>,
    pub payload: Seq<char>,
}

impl View for Button {
    type V = ButtonView;

    open spec fn view(&self) -> ButtonView {
        ButtonView { label: self.label@, payload: self.payload@ }
    }
}

/// The single outbound action the router decides on for one inbound
/// message.
pub enum Reply {
    /// Send a plain text message.
    Message { text: String },
    /// Send a text message with an inline keyboard attached.
    Keyboard { text: String, rows: Vec<Vec<Button>> },
    /// Send nothing (the unfinished reminder command).
    Silent,
}

/// The shape of a reply.
pub enum ReplyView {
    Message { text: Seq<char> },
    Keyboard { text: Seq<char>, rows: Seq<Seq<ButtonView>> },
    Silent,
}

impl View for Reply {
    type V = ReplyView;

    open spec fn view(&self) -> ReplyView {
        match self {
            Reply::Message { text } => ReplyView::Message { text: text@ },
            Reply::Keyboard { text, rows } => (ReplyView::Keyboard {
                text: text@,
                rows: rows@.map_values(|row: Vec<Button>| row@.map_values(|b: Button| b@)),
            }),
            Reply::Silent => ReplyView::Silent,
        }
    }
}

/// The static list of supported commands, sent for the help command.
pub open spec fn help_text_spec() -> Seq<char> {
    "The following commands are supported:\n/help - shows this message\n/ping - checks if the bot is still alive\n/callbacktest - test for an inline keyboard callback\n/setreminder - set a reminder using UNIX cron formatting"@
}

/// The fixed liveness reply.
pub open spec fn ping_text_spec() -> Seq<char> {
    "Pong!"@
}

/// The text sent along with the demo keyboard.
pub open spec fn keyboard_text_spec() -> Seq<char> {
    "Reminder test"@
}

/// The fixed reply for text that parses as no command.
pub open spec fn fallback_text_spec() -> Seq<char> {
    "Unrecognized command. Send /help for the list of supported commands."@
}

/// A button payload: the choice, the delimiter, the interaction
/// identifier.
pub open spec fn button_payload(choice: Seq<char>, id: Seq<char>) -> Seq<char> {
    choice + seq![crate::DELIMITER] + id
}

/// The demo keyboard: one row holding a yes button and a no button, whose
/// payloads both embed the same interaction identifier.
pub open spec fn keyboard_spec(id: Seq<char>) -> Seq<Seq<ButtonView>> {
    seq![
        seq![
            ButtonView { label: "Yes"@, payload: button_payload("Yes"@, id) },
            ButtonView { label: "No"@, payload: button_payload("No"@, id) },
        ],
    ]
}

/// The reply the router owes for each command, given the interaction
/// identifier minted for this invocation. Only the keyboard command uses
/// the identifier.
pub open spec fn respond_spec(c: CommandView, id: Seq<char>) -> ReplyView {
    match c {
        CommandView::Help => ReplyView::Message { text: help_text_spec() },
        CommandView::Ping => ReplyView::Message { text: ping_text_spec() },
        CommandView::CallbackTest => (ReplyView::Keyboard {
            text: keyboard_text_spec(),
            rows: keyboard_spec(id),
        }),
        CommandView::SetReminder { .. } => ReplyView::Silent,
    }
}

/// The text carried by a reply; silence carries none.
pub open spec fn reply_text(r: ReplyView) -> Seq<char> {
    match r {
        ReplyView::Message { text } => text,
        ReplyView::Keyboard { text, .. } => text,
        ReplyView::Silent => Seq::empty(),
    }
}

/// The help message as an owned string.
pub fn help_text() -> (r: String)
    ensures
        r@ == help_text_spec(),
{
    String::from_str(
        "The following commands are supported:\n/help - shows this message\n/ping - checks if the bot is still alive\n/callbacktest - test for an inline keyboard callback\n/setreminder - set a reminder using UNIX cron formatting",
    )
}

/// Builds one button payload from the choice and the identifier.
fn payload_for(choice: &str, interaction_id: &str) -> (r: String)
    ensures
        r@ == button_payload(choice@, interaction_id@),
{
    let mut p = String::from_str(choice);
    p.append("_");
    p.append(interaction_id);
    proof {
        reveal_strlit("_");
        assert("_"@ =~= seq![crate::DELIMITER]);
    }
    p
}

/// Builds the demo keyboard for one freshly minted identifier.
pub fn make_keyboard(interaction_id: &str) -> (rows: Vec<Vec<Button>>)
    ensures
        rows@.map_values(|row: Vec<Button>| row@.map_values(|b: Button| b@)) == keyboard_spec(
            interaction_id@,
        ),
{
    let yes = Button {
        label: String::from_str("Yes"),
        payload: payload_for("Yes", interaction_id),
    };
    let no = Button { label: String::from_str("No"), payload: payload_for("No", interaction_id) };
    let mut row: Vec<Button> = Vec::new();
    row.push(yes);
    row.push(no);
    let mut rows: Vec<Vec<Button>> = Vec::new();
    rows.push(row);
    proof {
        assert(rows@.map_values(|r2: Vec<Button>| r2@.map_values(|b: Button| b@))
            =~~= keyboard_spec(interaction_id@));
    }
    rows
}

/// Decides the reply owed for one parsed command and one interaction
/// identifier.
pub fn respond(command: &Command, interaction_id: &str) -> (r: Reply)
    ensures
        r@ == respond_spec(command@, interaction_id@),
{
    match command {
        Command::Help => Reply::Message { text: help_text() },
        Command::Ping => Reply::Message { text: String::from_str("Pong!") },
        Command::CallbackTest => (Reply::Keyboard {
            text: String::from_str("Reminder test"),
            rows: make_keyboard(interaction_id),
        }),
        Command::SetReminder { .. } => Reply::Silent,
    }
}

/// Routes the raw text of one inbound message: parses it, mints a fresh
/// identifier where the keyboard command asks for one, and decides the
/// reply; unrecognized text gets the fixed fallback message.
pub fn handle_message(text: &str) -> (r: Reply)
    ensures
        match parse_spec(text@) {
            Some(c) => exists|id: Seq<char>| is_token(id) && r@ == respond_spec(c, id),
            None => r@ == (ReplyView::Message { text: fallback_text_spec() }),
        },
{
    let parsed = parse_command(text);
    match parsed {
        Some(cmd) => {
            match &cmd {
                Command::CallbackTest => {
                    let id = random_alphanumeric(crate::TOKEN_LEN);
                    let r = respond(&cmd, id.as_str());
                    proof {
                        let c = parse_spec(text@)->0;
                        assert(is_token(id@) && r@ == respond_spec(c, id@));
                    }
                    r
                },
                _ => {
                    let r = respond(&cmd, "");
                    proof {
                        let c = parse_spec(text@)->0;
                        let w = Seq::new(crate::TOKEN_LEN as nat, |k: int| 'a');
                        assert forall|i: int| 0 <= i < w.len() implies is_alphanumeric_char(
                            #[trigger] w[i],
                        ) by {
                            assert(w[i] == 'a');
                        }
                        assert(is_token(w));
                        assert(respond_spec(c, w) == respond_spec(c, ""@));
                        assert(is_token(w) && r@ == respond_spec(c, w));
                    }
                    r
                },
            }
        },
        None => Reply::Message { text: String::from_str(
            "Unrecognized command. Send /help for the list of supported commands.",
        ) },
    }
}

/// Law: every recognized command except the unfinished reminder command
/// yields exactly one reply, and the reply's text is non-empty.
pub proof fn lemma_reply_nonempty(c: CommandView, id: Seq<char>)
    requires
        !(c is SetReminder),
    ensures
        !(respond_spec(c, id) is Silent),
        reply_text(respond_spec(c, id)).len() > 0,
{
    reveal_strlit(
        "The following commands are supported:\n/help - shows this message\n/ping - checks if the bot is still alive\n/callbacktest - test for an inline keyboard callback\n/setreminder - set a reminder using UNIX cron formatting",
    );
    reveal_strlit("Pong!");
    reveal_strlit("Reminder test");
}

/// Law: the fallback reply for unrecognized text is itself non-empty.
pub proof fn lemma_fallback_nonempty()
    ensures
        fallback_text_spec().len() > 0,
{
    reveal_strlit("Unrecognized command. Send /help for the list of supported commands.");
}

/// Law: every payload the router issues is a well-formed callback: a
/// choice free of the delimiter joined to an identifier holds exactly one
/// delimiter, so the correlator accepts everything the router sends out.
pub proof fn lemma_issued_payload_wellformed(choice: Seq<char>, id: Seq<char>)
    requires
        count_char(choice, crate::DELIMITER) == 0,
        is_token(id),
    ensures
        count_char(button_payload(choice, id), crate::DELIMITER) == 1,
{
    lemma_token_free_of_delimiter(id);
    lemma_count_char_concat(choice + seq![crate::DELIMITER], id, crate::DELIMITER);
    lemma_count_char_concat(choice, seq![crate::DELIMITER], crate::DELIMITER);
    assert(seq![crate::DELIMITER].skip(1) =~= Seq::<char>::empty());
    assert(count_char(Seq::<char>::empty(), crate::DELIMITER) == 0);
    assert(count_char(seq![crate::DELIMITER], crate::DELIMITER) == (if seq![crate::DELIMITER][0]
        == crate::DELIMITER {
        1nat
    } else {
        0nat
    }) + count_char(seq![crate::DELIMITER].skip(1), crate::DELIMITER));
    assert(count_char(seq![crate::DELIMITER], crate::DELIMITER) == 1);
}

} // verus!
