//! Actions that leave the interface for a command of the mail program.
use vstd::prelude::*;

verus! {

/// What a key asks the mail program to do. The text is the identifier of the
/// message that it is done to.
#[derive(Clone, Debug, PartialEq, Eq)]
pub enum Action {
    Nothing,
    Write,
    Reply(String),
    Forward(String),
    Download(String),
}

/// The content of an [`Action`].
#[verifier::ext_equal]
pub enum ActionView {
    Nothing,
    Write,
    Reply(Seq<char>),
    Forward(Seq<char>),
    Download(Seq<char>),
}

impl View for Action {
    type V = ActionView;

    open spec fn view(&self) -> ActionView {
        match self {
            Action::Nothing => ActionView::Nothing,
            Action::Write => ActionView::Write,
            Action::Reply(id) => ActionView::Reply(id@),
            Action::Forward(id) => ActionView::Forward(id@),
            Action::Download(id) => ActionView::Download(id@),
        }
    }
}

impl ActionView {
    /// The command line of an action: nothing for no action.
    pub open spec fn command_line(self) -> Seq<Seq<char>> {
        match self {
            ActionView::Nothing => seq![],
            ActionView::Write => seq!["himalaya"@, "message"@, "write"@],
            ActionView::Reply(id) => seq!["himalaya"@, "message"@, "reply"@, id],
            ActionView::Forward(id) => seq!["himalaya"@, "message"@, "forward"@, id],
            ActionView::Download(id) => seq!["himalaya"@, "attachments"@, "download"@, id],
        }
    }
}

impl Action {
    /// The command line that carries out an action.
    pub fn command_line(&self) -> (args: Vec<String>)
        ensures
            crate::text::texts(args@) == self@.command_line(),
    {
        let args = match self {
            Action::Nothing => vec![],
            Action::Write => vec![
                "himalaya".to_string(),
                "message".to_string(),
                "write".to_string(),
            ],
            Action::Reply(id) => vec![
                "himalaya".to_string(),
                "message".to_string(),
                "reply".to_string(),
                id.clone(),
            ],
            Action::Forward(id) => vec![
                "himalaya".to_string(),
                "message".to_string(),
                "forward".to_string(),
                id.clone(),
            ],
            Action::Download(id) => vec![
                "himalaya".to_string(),
                "attachments".to_string(),
                "download".to_string(),
                id.clone(),
            ],
        };
        assert(crate::text::texts(args@) =~= self@.command_line());
        args
    }
}

/// Each action has the command of the mail program that carries it out, with the
/// identifier of the message that it is about.
pub proof fn law_commands(id: Seq<char>)
    ensures
        ActionView::Nothing.command_line().len() == 0,
        ActionView::Write.command_line() == seq!["himalaya"@, "message"@, "write"@],
        ActionView::Reply(id).command_line() == seq!["himalaya"@, "message"@, "reply"@, id],
        ActionView::Forward(id).command_line() == seq![
            "himalaya"@,
            "message"@,
            "forward"@,
            id,
        ],
        ActionView::Download(id).command_line() == seq![
            "himalaya"@,
            "attachments"@,
            "download"@,
            id,
        ],
{
}

/// Only the absence of an action has no command line, every command line starts
/// with the name of the mail program, and one that is about a message ends with
/// the identifier of that message.
pub proof fn law_command_line(action: ActionView)
    ensures
        action.command_line().len() == 0 <==> action == ActionView::Nothing,
        action != ActionView::Nothing ==> action.command_line().first() == "himalaya"@,
        action matches ActionView::Reply(id) ==> action.command_line().last() == id,
        action matches ActionView::Forward(id) ==> action.command_line().last() == id,
        action matches ActionView::Download(id) ==> action.command_line().last() == id,
{
}

} // verus!
