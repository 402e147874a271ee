//! What every router answers with: the response of a routed notification,
//! and the errors of routing.

use crate::error::{DbError, DbErrorView};
use crate::text::{same_text, text_of};
use vstd::prelude::*;

verus! {

/// The response returned when a router has routed a notification.
#[derive(Debug, Clone, PartialEq, Eq)]
pub struct RouterResponse {
    /// The HTTP status code.
    pub status: u16,
    /// The response headers, each name once.
    pub headers: Vec<(String, String)>,
    pub body: Option<String>,
}

/// A [`RouterResponse`] as plain values.
pub struct RouterResponseView {
    pub status: u16,
    pub headers: Seq<(Seq<char>, Seq<char>)>,
    pub body: Option<Seq<char>>,
}

impl View for RouterResponse {
    type V = RouterResponseView;

    open spec fn view(&self) -> RouterResponseView {
        RouterResponseView {
            status: self.status,
            headers: self.headers.deep_view(),
            body: self.body.deep_view(),
        }
    }
}

/// The value of the header `name` among `headers`: that of the first entry
/// with this name.
pub open spec fn header_of(headers: Seq<(Seq<char>, Seq<char>)>, name: Seq<char>) -> Option<
    Seq<char>,
>
    decreases headers.len(),
{
    if headers.len() == 0 {
        None
    } else if headers[0].0 == name {
        Some(headers[0].1)
    } else {
        header_of(headers.skip(1), name)
    }
}

impl RouterResponseView {
    /// No header name occurs twice.
    pub open spec fn well_formed(self) -> bool {
        forall|i: int, j: int|
            0 <= i < j < self.headers.len() ==> (#[trigger] self.headers[i]).0 != (
            #[trigger] self.headers[j]).0
    }
}

impl RouterResponse {
    /// Looks a response header up by its name.
    pub fn header<'a>(&'a self, name: &str) -> (value: Option<&'a str>)
        ensures
            text_of(value) == header_of(self@.headers, name@),
    {
        let mut i: usize = 0;
        assert(self@.headers.skip(0) =~= self@.headers);
        while i < self.headers.len()
            invariant
                i <= self.headers.len(),
                header_of(self@.headers, name@) == header_of(self@.headers.skip(i as int), name@),
            decreases self.headers.len() - i,
        {
            proof {
                let rest = self@.headers.skip(i as int);
                assert(rest[0] == self@.headers[i as int]);
                assert(self@.headers[i as int] == (self.headers@[i as int].0@, self.headers@[i as int].1@));
                assert(rest.skip(1) =~= self@.headers.skip(i + 1));
            }
            if same_text(self.headers[i].0.as_str(), name) {
                return Some(self.headers[i].1.as_str());
            }
            i += 1;
        }
        assert(self@.headers.skip(i as int).len() == 0);
        None
    }
}

/// Why a notification could not be routed.
#[derive(Debug, Clone, PartialEq, Eq)]
pub enum RouterError {
    /// Storage failed while the notification was being saved.
    SaveDb(DbError),
    /// The user was deleted while the notification was being routed.
    UserWasDeleted,
}

/// A [`RouterError`] as plain values.
pub enum RouterErrorView {
    SaveDb(DbErrorView),
    UserWasDeleted,
}

impl View for RouterError {
    type V = RouterErrorView;

    open spec fn view(&self) -> RouterErrorView {
        match *self {
            RouterError::SaveDb(e) => RouterErrorView::SaveDb(e@),
            RouterError::UserWasDeleted => RouterErrorView::UserWasDeleted,
        }
    }
}

impl RouterError {
    /// The HTTP status code of the error: 503 where storage failed, 410
    /// where the user is gone.
    pub fn status(&self) -> (code: u16)
        ensures
            code == (if self is UserWasDeleted {
                410u16
            } else {
                503u16
            }),
    {
        match self {
            RouterError::SaveDb(_) => 503,
            RouterError::UserWasDeleted => 410,
        }
    }

    /// The error number: 201 where storage failed, 105 where the user is
    /// gone.
    pub fn errno(&self) -> (n: usize)
        ensures
            n == (if self is UserWasDeleted {
                105usize
            } else {
                201usize
            }),
    {
        match self {
            RouterError::SaveDb(_) => 201,
            RouterError::UserWasDeleted => 105,
        }
    }

    /// The text that describes the error.
    pub fn message(&self) -> (r: &'static str)
        ensures
            r@ == (if self is UserWasDeleted {
                "User was deleted during routing"@
            } else {
                "Database error while saving notification"@
            }),
    {
        match self {
            RouterError::SaveDb(_) => "Database error while saving notification",
            RouterError::UserWasDeleted => "User was deleted during routing",
        }
    }
}

} // verus!
