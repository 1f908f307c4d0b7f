//! Statuses of one-time tasks.

use vstd::prelude::*;
use vstd::string::StringExecFns;

use crate::text;
use crate::text::{i64_to_text, text_eq};

verus! {

/// Status of a one-time task. A status that has no name here keeps its own.
#[derive(Debug, PartialEq, Eq)]
pub enum Status {
    Init,
    Created,
    Accepted,
    Submitted,
    Rejected,
    Disputed,
    AdminStopped,
    Completed,
    Close,
    Expired,
    Failed,
    Other(String),
}

/// The model of a status.
#[verifier::ext_equal]
pub enum StatusView {
    Init,
    Created,
    Accepted,
    Submitted,
    Rejected,
    Disputed,
    AdminStopped,
    Completed,
    Close,
    Expired,
    Failed,
    Other(Seq<char>),
}

impl View for Status {
    type V = StatusView;

    open spec fn view(&self) -> StatusView {
        match self {
            Status::Init => StatusView::Init,
            Status::Created => StatusView::Created,
            Status::Accepted => StatusView::Accepted,
            Status::Submitted => StatusView::Submitted,
            Status::Rejected => StatusView::Rejected,
            Status::Disputed => StatusView::Disputed,
            Status::AdminStopped => StatusView::AdminStopped,
            Status::Completed => StatusView::Completed,
            Status::Close => StatusView::Close,
            Status::Expired => StatusView::Expired,
            Status::Failed => StatusView::Failed,
            Status::Other(name) => StatusView::Other(name@),
        }
    }
}

/// The model of an optional status.
pub open spec fn opt_status(status: Option<Status>) -> Option<StatusView> {
    match status {
        Some(s) => Some(s@),
        None => None,
    }
}

/// The status with a backend code; an unknown code is kept by its number.
pub open spec fn status_of_code(code: i32) -> StatusView {
    if code == -1 {
        StatusView::Init
    } else if code == 0 {
        StatusView::Created
    } else if code == 1 {
        StatusView::Accepted
    } else if code == 2 {
        StatusView::Submitted
    } else if code == 3 {
        StatusView::Rejected
    } else if code == 4 {
        StatusView::Disputed
    } else if code == 5 {
        StatusView::AdminStopped
    } else if code == 6 {
        StatusView::Completed
    } else if code == 7 {
        StatusView::Close
    } else if code == 8 {
        StatusView::Expired
    } else if code == 9 {
        StatusView::Failed
    } else {
        StatusView::Other("unknown_"@ + text::decimal(code as int))
    }
}

/// The backend key of a status.
pub open spec fn status_text(status: StatusView) -> Seq<char> {
    match status {
        StatusView::Init => "init"@,
        StatusView::Created => "created"@,
        StatusView::Accepted => "accepted"@,
        StatusView::Submitted => "submitted"@,
        StatusView::Rejected => "rejected"@,
        StatusView::Disputed => "disputed"@,
        StatusView::AdminStopped => "admin_stopped"@,
        StatusView::Completed => "complete"@,
        StatusView::Close => "close"@,
        StatusView::Expired => "expired"@,
        StatusView::Failed => "failed"@,
        StatusView::Other(name) => name,
    }
}

/// The status with a backend key; an unknown key is kept as it is.
pub open spec fn status_of_text(name: Seq<char>) -> StatusView {
    if name == "init"@ {
        StatusView::Init
    } else if name == "created"@ {
        StatusView::Created
    } else if name == "accepted"@ {
        StatusView::Accepted
    } else if name == "submitted"@ {
        StatusView::Submitted
    } else if name == "rejected"@ {
        StatusView::Rejected
    } else if name == "disputed"@ {
        StatusView::Disputed
    } else if name == "admin_stopped"@ {
        StatusView::AdminStopped
    } else if name == "complete"@ {
        StatusView::Completed
    } else if name == "close"@ {
        StatusView::Close
    } else if name == "expired"@ {
        StatusView::Expired
    } else if name == "failed"@ {
        StatusView::Failed
    } else {
        StatusView::Other(name)
    }
}

/// A status that a task does not leave.
pub open spec fn status_is_terminal(status: StatusView) -> bool {
    match status {
        StatusView::AdminStopped => true,
        StatusView::Completed => true,
        StatusView::Close => true,
        StatusView::Expired => true,
        StatusView::Failed => true,
        _ => false,
    }
}

impl Clone for Status {
    fn clone(&self) -> (r: Status)
        ensures
            r@ == self@,
    {
        match self {
            Status::Init => Status::Init,
            Status::Created => Status::Created,
            Status::Accepted => Status::Accepted,
            Status::Submitted => Status::Submitted,
            Status::Rejected => Status::Rejected,
            Status::Disputed => Status::Disputed,
            Status::AdminStopped => Status::AdminStopped,
            Status::Completed => Status::Completed,
            Status::Close => Status::Close,
            Status::Expired => Status::Expired,
            Status::Failed => Status::Failed,
            Status::Other(name) => Status::Other(name.clone()),
        }
    }
}

impl Status {
    /// The status with a backend code.
    pub fn from_int(code: i32) -> (r: Status)
        ensures
            r@ == status_of_code(code),
    {
        match code {
            -1 => Status::Init,
            0 => Status::Created,
            1 => Status::Accepted,
            2 => Status::Submitted,
            3 => Status::Rejected,
            4 => Status::Disputed,
            5 => Status::AdminStopped,
            6 => Status::Completed,
            7 => Status::Close,
            8 => Status::Expired,
            9 => Status::Failed,
            _ => {
                let digits = i64_to_text(code as i64);
                Status::Other("unknown_".to_string().concat(digits.as_str()))
            },
        }
    }

    /// The status with a backend key.
    pub fn parse(name: &str) -> (r: Status)
        ensures
            r@ == status_of_text(name@),
    {
        if text_eq(name, "init") {
            Status::Init
        } else if text_eq(name, "created") {
            Status::Created
        } else if text_eq(name, "accepted") {
            Status::Accepted
        } else if text_eq(name, "submitted") {
            Status::Submitted
        } else if text_eq(name, "rejected") {
            Status::Rejected
        } else if text_eq(name, "disputed") {
            Status::Disputed
        } else if text_eq(name, "admin_stopped") {
            Status::AdminStopped
        } else if text_eq(name, "complete") {
            Status::Completed
        } else if text_eq(name, "close") {
            Status::Close
        } else if text_eq(name, "expired") {
            Status::Expired
        } else if text_eq(name, "failed") {
            Status::Failed
        } else {
            Status::Other(name.to_string())
        }
    }

    /// The backend key of this status.
    pub fn as_str(&self) -> (r: &str)
        ensures
            r@ == status_text(self@),
    {
        match self {
            Status::Init => "init",
            Status::Created => "created",
            Status::Accepted => "accepted",
            Status::Submitted => "submitted",
            Status::Rejected => "rejected",
            Status::Disputed => "disputed",
            Status::AdminStopped => "admin_stopped",
            Status::Completed => "complete",
            Status::Close => "close",
            Status::Expired => "expired",
            Status::Failed => "failed",
            Status::Other(name) => name.as_str(),
        }
    }

    /// Whether a task does not leave this status.
    pub fn is_terminal(&self) -> (r: bool)
        ensures
            r == status_is_terminal(self@),
    {
        match self {
            Status::AdminStopped => true,
            Status::Completed => true,
            Status::Close => true,
            Status::Expired => true,
            Status::Failed => true,
            _ => false,
        }
    }

    /// Whether this status has a name of its own.
    pub fn is_known(&self) -> (r: bool)
        ensures
            r == !(self@ is Other),
    {
        match self {
            Status::Other(_) => false,
            _ => true,
        }
    }

    /// Whether two statuses are the same.
    pub fn same(&self, other: &Status) -> (r: bool)
        ensures
            r == (self@ == other@),
    {
        match (self, other) {
            (Status::Init, Status::Init) => true,
            (Status::Created, Status::Created) => true,
            (Status::Accepted, Status::Accepted) => true,
            (Status::Submitted, Status::Submitted) => true,
            (Status::Rejected, Status::Rejected) => true,
            (Status::Disputed, Status::Disputed) => true,
            (Status::AdminStopped, Status::AdminStopped) => true,
            (Status::Completed, Status::Completed) => true,
            (Status::Close, Status::Close) => true,
            (Status::Expired, Status::Expired) => true,
            (Status::Failed, Status::Failed) => true,
            (Status::Other(a), Status::Other(b)) => text_eq(a.as_str(), b.as_str()),
            _ => false,
        }
    }
}

/// Reading the key of a status gives the status back, for every status whose
/// own name is not the key of another.
pub proof fn status_key_reads_back(status: StatusView)
    requires
        status matches StatusView::Other(name) ==> status_of_text(name) is Other,
    ensures
        status_of_text(status_text(status)) == status,
{
    reveal_strlit("init");
    reveal_strlit("created");
    reveal_strlit("accepted");
    reveal_strlit("submitted");
    reveal_strlit("rejected");
    reveal_strlit("disputed");
    reveal_strlit("admin_stopped");
    reveal_strlit("complete");
    reveal_strlit("close");
    reveal_strlit("expired");
    reveal_strlit("failed");
    assert("init"@.len() == 4);
    assert("created"@.len() == 7);
    assert("accepted"@.len() == 8);
    assert("submitted"@.len() == 9);
    assert("rejected"@.len() == 8);
    assert("disputed"@.len() == 8);
    assert("admin_stopped"@.len() == 13);
    assert("complete"@.len() == 8);
    assert("close"@.len() == 5);
    assert("expired"@.len() == 7);
    assert("failed"@.len() == 6);
    assert("created"@[0] != "expired"@[0]);
    assert("accepted"@[0] != "rejected"@[0]);
    assert("accepted"@[0] != "disputed"@[0]);
    assert("rejected"@[0] != "disputed"@[0]);
    assert("accepted"@[0] != "complete"@[0]);
    assert("rejected"@[0] != "complete"@[0]);
    assert("disputed"@[0] != "complete"@[0]);
}

} // verus!
