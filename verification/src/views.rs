//! The three pages: the list of memos, the empty form and the form that
//! edits one memo. Each is a function from its data to HTML text.
//!
//! The list shows a memo's body as it is, markup included. The edit form
//! shows it escaped.

use crate::models::{memo_views, Memo, MemoView};
use vstd::prelude::*;
use vstd::string::StringExecFns;

verus! {

/// The decimal digit for a number below ten.
pub open spec fn digit(d: int) -> char {
    if d == 0 {
        '0'
    } else if d == 1 {
        '1'
    } else if d == 2 {
        '2'
    } else if d == 3 {
        '3'
    } else if d == 4 {
        '4'
    } else if d == 5 {
        '5'
    } else if d == 6 {
        '6'
    } else if d == 7 {
        '7'
    } else if d == 8 {
        '8'
    } else {
        '9'
    }
}

/// A natural number in decimal, without leading zeros.
pub open spec fn digits(n: nat) -> Seq<char>
    decreases n,
{
    if n < 10 {
        seq![digit(n as int)]
    } else {
        digits(n / 10).push(digit((n % 10) as int))
    }
}

/// An integer in decimal, with a minus sign where it is negative.
pub open spec fn decimal(n: int) -> Seq<char> {
    if n < 0 {
        seq!['-'] + digits((-n) as nat)
    } else {
        digits(n as nat)
    }
}

/// What a character becomes in escaped HTML: the five characters that carry
/// markup turn into numeric references, every other stays.
pub open spec fn escaped_char(c: char) -> Seq<char> {
    if c == '"' {
        seq!['&', '#', '3', '4', ';']
    } else if c == '&' {
        seq!['&', '#', '3', '8', ';']
    } else if c == '\'' {
        seq!['&', '#', '3', '9', ';']
    } else if c == '<' {
        seq!['&', '#', '6', '0', ';']
    } else if c == '>' {
        seq!['&', '#', '6', '2', ';']
    } else {
        seq![c]
    }
}

/// The character can open or close an element or end an attribute's value.
pub open spec fn is_markup(c: char) -> bool {
    c == '"' || c == '\'' || c == '<' || c == '>'
}

/// A text in escaped HTML: its characters, each escaped, in their order.
pub open spec fn escaped(text: Seq<char>) -> Seq<char>
    decreases text.len(),
{
    if text.len() == 0 {
        Seq::empty()
    } else {
        escaped(text.drop_last()) + escaped_char(text.last())
    }
}

/// Escapes a text with askama's HTML escaper, `Html::write_escaped_str`,
/// writing into a fresh `String`. Trusted, not proved: that the escaper
/// replaces `"`, `&`, `'`, `<` and `>` by `&#34;`, `&#38;`, `&#39;`, `&#60;`
/// and `&#62;` and copies every other character.
#[verifier::external_body]
fn html_escape(text: &str) -> (safe: String)
    ensures
        safe@ == escaped(text@),
{
    let mut safe = String::new();
    let _ = askama::filters::Escaper::write_escaped_str(&askama::filters::Html, &mut safe, text);
    safe
}

/// The one-character text for a number below ten.
fn digit_str(d: u32) -> (text: &'static str)
    requires
        d < 10,
    ensures
        text@ == seq![digit(d as int)],
{
    proof {
        reveal_strlit("0");
        reveal_strlit("1");
        reveal_strlit("2");
        reveal_strlit("3");
        reveal_strlit("4");
        reveal_strlit("5");
        reveal_strlit("6");
        reveal_strlit("7");
        reveal_strlit("8");
        reveal_strlit("9");
    }
    let text = if d == 0 {
        "0"
    } else if d == 1 {
        "1"
    } else if d == 2 {
        "2"
    } else if d == 3 {
        "3"
    } else if d == 4 {
        "4"
    } else if d == 5 {
        "5"
    } else if d == 6 {
        "6"
    } else if d == 7 {
        "7"
    } else if d == 8 {
        "8"
    } else {
        "9"
    };
    assert(text@ =~= seq![digit(d as int)]);
    text
}

/// Appends a natural number in decimal.
fn push_digits(page: &mut String, n: u32)
    ensures
        final(page)@ == old(page)@ + digits(n as nat),
    decreases n,
{
    if n >= 10 {
        push_digits(page, n / 10);
    }
    page.append(digit_str(n % 10));
    assert(page@ =~= old(page)@ + digits(n as nat));
}

/// Appends an integer in decimal.
fn push_decimal(page: &mut String, n: i32)
    ensures
        final(page)@ == old(page)@ + decimal(n as int),
{
    if n < 0 {
        proof {
            reveal_strlit("-");
        }
        page.append("-");
        push_digits(page, (-(n as i64)) as u32);
        assert(page@ =~= old(page)@ + decimal(n as int));
    } else {
        push_digits(page, n as u32);
    }
}

/// The list page up to its first entry.
pub const INDEX_HEAD: &'static str =
    "<!DOCTYPE html>\n<html>\n<head>\n<meta charset=\"utf-8\">\n<title>Memos</title>\n<script src=\"/static/memos.js\" defer></script>\n</head>\n<body>\n<h1>Memos</h1>\n<p><a href=\"/new\">New memo</a></p>\n<ul>\n";

/// An entry of the list up to the memo's id.
pub const ITEM_OPEN: &'static str = "<li><a href=\"/";

/// An entry of the list between the memo's id and its body.
pub const ITEM_BODY: &'static str = "\">";

/// An entry of the list between the memo's body and the id on its button.
pub const ITEM_DELETE: &'static str = "</a> <button type=\"button\" data-delete=\"/memos/";

/// The end of an entry of the list.
pub const ITEM_CLOSE: &'static str = "\">Delete</button></li>\n";

/// The list page after its last entry.
pub const INDEX_FOOT: &'static str = "</ul>\n</body>\n</html>\n";

/// The page with the empty form.
pub const NEW_PAGE: &'static str =
    "<!DOCTYPE html>\n<html>\n<head>\n<meta charset=\"utf-8\">\n<title>New memo</title>\n<script src=\"/static/memos.js\" defer></script>\n</head>\n<body>\n<h1>New memo</h1>\n<form data-method=\"POST\" data-action=\"/memos\">\n<textarea name=\"body\"></textarea>\n<button type=\"submit\">Save</button>\n</form>\n<p><a href=\"/\">Back to the list</a></p>\n</body>\n</html>\n";

/// The edit page up to the memo's id in the form.
pub const EDIT_HEAD: &'static str =
    "<!DOCTYPE html>\n<html>\n<head>\n<meta charset=\"utf-8\">\n<title>Edit memo</title>\n<script src=\"/static/memos.js\" defer></script>\n</head>\n<body>\n<h1>Edit memo</h1>\n<form data-method=\"PUT\" data-action=\"/memos/";

/// The edit page between the memo's id and its body.
pub const EDIT_BODY: &'static str = "\">\n<textarea name=\"body\">";

/// The edit page between the memo's body and the id on its button.
pub const EDIT_DELETE: &'static str =
    "</textarea>\n<button type=\"submit\">Save</button>\n<button type=\"button\" data-delete=\"/memos/";

/// The edit page after the id on its button.
pub const EDIT_FOOT: &'static str =
    "\">Delete</button>\n</form>\n<p><a href=\"/\">Back to the list</a></p>\n</body>\n</html>\n";

/// The entry of one memo in the list: a link to its edit form around the
/// body as it is, and a button that deletes the memo.
pub open spec fn index_item(memo: MemoView) -> Seq<char> {
    ITEM_OPEN@ + decimal(memo.id) + ITEM_BODY@ + memo.body + ITEM_DELETE@ + decimal(memo.id)
        + ITEM_CLOSE@
}

/// The entries of the memos, in their order.
pub open spec fn index_items(memos: Seq<MemoView>) -> Seq<char>
    decreases memos.len(),
{
    if memos.len() == 0 {
        Seq::empty()
    } else {
        index_items(memos.drop_last()) + index_item(memos.last())
    }
}

/// The page that lists the memos.
pub open spec fn index_page(memos: Seq<MemoView>) -> Seq<char> {
    INDEX_HEAD@ + index_items(memos) + INDEX_FOOT@
}

/// The page with the empty form.
pub open spec fn new_page() -> Seq<char> {
    NEW_PAGE@
}

/// The page that edits one memo: a form that holds the escaped body and is
/// bound to the memo's id, for saving and for deleting.
pub open spec fn edit_page(memo: MemoView) -> Seq<char> {
    EDIT_HEAD@ + decimal(memo.id) + EDIT_BODY@ + escaped(memo.body) + EDIT_DELETE@ + decimal(
        memo.id,
    ) + EDIT_FOOT@
}

/// The list of all memos.
#[derive(Debug)]
pub struct IndexView {
    pub memos: Vec<Memo>,
}

impl IndexView {
    /// The page as HTML text.
    pub fn render(&self) -> (page: String)
        ensures
            page@ == index_page(memo_views(self.memos@)),
    {
        let mut page = INDEX_HEAD.to_owned();
        let mut at: usize = 0;
        while at < self.memos.len()
            invariant
                at <= self.memos@.len(),
                page@ == INDEX_HEAD@ + index_items(memo_views(self.memos@.take(at as int))),
            decreases self.memos@.len() - at,
        {
            let memo = &self.memos[at];
            let ghost before = page@;
            page.append(ITEM_OPEN);
            push_decimal(&mut page, memo.id);
            page.append(ITEM_BODY);
            page.append(memo.body.as_str());
            page.append(ITEM_DELETE);
            push_decimal(&mut page, memo.id);
            page.append(ITEM_CLOSE);
            proof {
                let shown = memo_views(self.memos@.take(at as int + 1));
                assert(shown.drop_last() =~= memo_views(self.memos@.take(at as int)));
                assert(shown.last() == memo@);
                assert(page@ =~= before + index_item(memo@));
            }
            at += 1;
        }
        assert(self.memos@.take(at as int) =~= self.memos@);
        page.append(INDEX_FOOT);
        page
    }
}

/// The empty form for a new memo.
#[derive(Debug, Clone, Copy, PartialEq, Eq)]
pub struct NewView;

impl NewView {
    /// The page as HTML text.
    pub fn render(&self) -> (page: String)
        ensures
            page@ == new_page(),
    {
        NEW_PAGE.to_owned()
    }
}

/// The form that edits one memo.
#[derive(Debug)]
pub struct EditView {
    pub memo: Memo,
}

impl EditView {
    /// The page as HTML text.
    pub fn render(&self) -> (page: String)
        ensures
            page@ == edit_page(self.memo@),
    {
        let safe_body = html_escape(self.memo.body.as_str());
        let mut page = EDIT_HEAD.to_owned();
        push_decimal(&mut page, self.memo.id);
        page.append(EDIT_BODY);
        page.append(safe_body.as_str());
        page.append(EDIT_DELETE);
        push_decimal(&mut page, self.memo.id);
        page.append(EDIT_FOOT);
        assert(page@ =~= edit_page(self.memo@));
        page
    }
}

} // verus!
