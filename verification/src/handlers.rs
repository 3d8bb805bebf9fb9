//! What each request is answered with, given what the storage said.
//!
//! A handler here is the decision alone: it takes the outcome of the one
//! storage operation that its request stands for and gives the reply. Whoever
//! serves the requests runs the operation and sends the reply.

use crate::models::{found_view, listing_view, Memo, MemoView, StorageError};
use crate::views::{edit_page, index_page, new_page, EditView, IndexView, NewView};
use vstd::prelude::*;

verus! {

/// The answer to a request.
#[derive(Debug, PartialEq, Eq)]
pub enum Reply {
    /// 200, with a page of HTML.
    Page(String),
    /// 204, without a body: the storage did what was asked.
    NoContent,
    /// 404, without a body: there is no such memo.
    NotFound,
    /// 500, without a body: the storage failed. No detail goes to the client.
    ServerError,
}

/// What a reply is, mathematically.
pub enum ReplyView {
    Page(Seq<char>),
    NoContent,
    NotFound,
    ServerError,
}

impl ReplyView {
    /// The HTTP status code.
    pub open spec fn status(self) -> int {
        match self {
            ReplyView::Page(_) => 200,
            ReplyView::NoContent => 204,
            ReplyView::NotFound => 404,
            ReplyView::ServerError => 500,
        }
    }

    /// The text of the body: the page, or nothing.
    pub open spec fn body(self) -> Seq<char> {
        match self {
            ReplyView::Page(html) => html,
            _ => Seq::empty(),
        }
    }
}

impl View for Reply {
    type V = ReplyView;

    open spec fn view(&self) -> ReplyView {
        match self {
            Reply::Page(html) => ReplyView::Page(html@),
            Reply::NoContent => ReplyView::NoContent,
            Reply::NotFound => ReplyView::NotFound,
            Reply::ServerError => ReplyView::ServerError,
        }
    }
}

impl Reply {
    /// The HTTP status code.
    pub fn status(&self) -> (code: u16)
        ensures
            code == self@.status(),
    {
        match self {
            Reply::Page(_) => 200,
            Reply::NoContent => 204,
            Reply::NotFound => 404,
            Reply::ServerError => 500,
        }
    }

    /// The text of the body: the page, or nothing.
    pub fn body(&self) -> (text: &str)
        ensures
            text@ == self@.body(),
    {
        match self {
            Reply::Page(html) => html.as_str(),
            _ => {
                proof {
                    reveal_strlit("");
                }
                let text = "";
                assert(text@ =~= Seq::empty());
                text
            },
        }
    }
}

/// The reply to a request for the list: the list page, or a server error
/// where the memos could not be loaded.
pub open spec fn index_reply(listing: Result<Seq<MemoView>, StorageError>) -> ReplyView {
    match listing {
        Ok(memos) => ReplyView::Page(index_page(memos)),
        Err(_) => ReplyView::ServerError,
    }
}

/// The reply to a request for the empty form.
pub open spec fn new_reply() -> ReplyView {
    ReplyView::Page(new_page())
}

/// The reply to a request for a memo's edit form: the form, not found where
/// there is no such memo, or a server error where the search failed.
pub open spec fn edit_reply(found: Result<Option<MemoView>, StorageError>) -> ReplyView {
    match found {
        Ok(Some(memo)) => ReplyView::Page(edit_page(memo)),
        Ok(None) => ReplyView::NotFound,
        Err(_) => ReplyView::ServerError,
    }
}

/// The reply to a request that changes the table: no content, or a server
/// error where the storage failed.
pub open spec fn write_reply(stored: Result<(), StorageError>) -> ReplyView {
    match stored {
        Ok(_) => ReplyView::NoContent,
        Err(_) => ReplyView::ServerError,
    }
}

/// Answers `GET /`, given what listing the memos gave.
pub fn index(listing: Result<Vec<Memo>, StorageError>) -> (reply: Reply)
    ensures
        reply@ == index_reply(listing_view(listing)),
{
    match listing {
        Ok(memos) => Reply::Page(IndexView { memos }.render()),
        Err(_) => Reply::ServerError,
    }
}

/// Answers `GET /new`.
pub fn new_memo() -> (reply: Reply)
    ensures
        reply@ == new_reply(),
{
    Reply::Page(NewView.render())
}

/// Answers `GET /{id}`, given what the search for the memo gave.
pub fn edit_memo(found: Result<Option<Memo>, StorageError>) -> (reply: Reply)
    ensures
        reply@ == edit_reply(found_view(found)),
{
    match found {
        Ok(Some(memo)) => Reply::Page(EditView { memo }.render()),
        Ok(None) => Reply::NotFound,
        Err(_) => Reply::ServerError,
    }
}

/// Answers `POST /memos`, given what inserting the memo gave.
pub fn create_memo(stored: Result<(), StorageError>) -> (reply: Reply)
    ensures
        reply@ == write_reply(stored),
{
    match stored {
        Ok(_) => Reply::NoContent,
        Err(_) => Reply::ServerError,
    }
}

/// Answers `PUT /memos/{id}`, given what updating the memo gave.
pub fn update_memo(stored: Result<(), StorageError>) -> (reply: Reply)
    ensures
        reply@ == write_reply(stored),
{
    match stored {
        Ok(_) => Reply::NoContent,
        Err(_) => Reply::ServerError,
    }
}

/// Answers `DELETE /memos/{id}`, given what removing the memo gave.
pub fn delete_memo(stored: Result<(), StorageError>) -> (reply: Reply)
    ensures
        reply@ == write_reply(stored),
{
    match stored {
        Ok(_) => Reply::NoContent,
        Err(_) => Reply::ServerError,
    }
}

} // verus!
