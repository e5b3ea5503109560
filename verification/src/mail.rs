//! What the interface knows of a mail account: its folders, the envelopes of
//! one page of a folder, and what can be asked of the account.
use vstd::prelude::*;

verus! {

/// A folder of the account. Its description may be the number of messages in
/// it.
#[derive(Clone, Debug, PartialEq, Eq)]
pub struct Folder {
    pub name: String,
    pub desc: String,
}

/// The texts of a [`Folder`].
#[verifier::ext_equal]
pub struct FolderView {
    pub name: Seq<char>,
    pub desc: Seq<char>,
}

impl View for Folder {
    type V = FolderView;

    open spec fn view(&self) -> FolderView {
        FolderView { name: self.name@, desc: self.desc@ }
    }
}

/// The envelope of a message.
#[derive(Clone, Debug, PartialEq, Eq)]
pub struct Envelope {
    pub id: String,
    pub subject: String,
    /// The address of the sender.
    pub from: String,
    pub date: String,
}

/// The texts of an [`Envelope`].
#[verifier::ext_equal]
pub struct EnvelopeView {
    pub id: Seq<char>,
    pub subject: Seq<char>,
    pub from: Seq<char>,
    pub date: Seq<char>,
}

impl View for Envelope {
    type V = EnvelopeView;

    open spec fn view(&self) -> EnvelopeView {
        EnvelopeView {
            id: self.id@,
            subject: self.subject@,
            from: self.from@,
            date: self.date@,
        }
    }
}

/// The texts of a list of folders.
pub open spec fn folder_views(folders: Seq<Folder>) -> Seq<FolderView> {
    folders.map_values(|f: Folder| f@)
}

/// The texts of a list of envelopes.
pub open spec fn envelope_views(envelopes: Seq<Envelope>) -> Seq<EnvelopeView> {
    envelopes.map_values(|e: Envelope| e@)
}

/// The text of an optional string.
pub open spec fn text_view(s: Option<String>) -> Option<Seq<char>> {
    match s {
        Some(s) => Some(s@),
        None => None,
    }
}

/// Something to fetch from the account.
#[derive(Clone, Debug, PartialEq, Eq)]
pub enum Request {
    /// One page of the envelopes of a folder.
    Envelopes { folder: String, page: usize },
    /// All folders.
    Folders,
    /// The text of one message.
    Message { folder: String, id: usize },
}

/// The content of a [`Request`].
#[verifier::ext_equal]
pub enum RequestView {
    Envelopes { folder: Seq<char>, page: nat },
    Folders,
    Message { folder: Seq<char>, id: nat },
}

impl View for Request {
    type V = RequestView;

    open spec fn view(&self) -> RequestView {
        match self {
            Request::Envelopes { folder, page } => RequestView::Envelopes {
                folder: folder@,
                page: *page as nat,
            },
            Request::Folders => RequestView::Folders,
            Request::Message { folder, id } => RequestView::Message {
                folder: folder@,
                id: *id as nat,
            },
        }
    }
}

/// The folder that is shown first.
pub open spec fn inbox() -> Seq<char> {
    "INBOX"@
}

/// The folder and the page whose envelopes have to be fetched, along with all
/// folders, before the interface can start.
pub fn initial_page() -> (page: (String, usize))
    ensures
        page.0@ == inbox(),
        page.1 == 0,
{
    ("INBOX".to_string(), 0)
}

} // verus!
