//! The inbox endpoints: paging, and how a stored message is shown.

use vstd::prelude::*;

use crate::models::Message;
use crate::time::rfc3339_of;
use crate::web::middleware::AuthUser;
use crate::web::{ApiError, FORBIDDEN, NOT_FOUND};

verus! {

/// Which page of the inbox to show.
#[derive(Debug, Clone)]
pub struct ListMessagesQuery {
    pub unread: bool,
    pub page: usize,
    pub page_size: usize,
}

/// One page of the inbox.
#[derive(Debug, Clone)]
pub struct MessagesResponse {
    pub total: i64,
    pub unread_count: i64,
    pub page: usize,
    pub page_size: usize,
    pub items: Vec<MessageListItem>,
}

/// A message as listed.
#[derive(Debug, Clone)]
pub struct MessageListItem {
    pub id: i64,
    pub title: String,
    pub repo_name: Option<String>,
    pub summary: String,
    pub commit_range: Option<String>,
    pub is_read: bool,
    pub created_at: String,
}

/// A message as opened.
#[derive(Debug, Clone)]
pub struct MessageDetailResponse {
    pub id: i64,
    pub title: String,
    pub repo_name: Option<String>,
    pub content: String,
    pub report_path: Option<String>,
    pub commit_range: Option<String>,
    pub is_read: bool,
    pub created_at: String,
}

/// How many messages were marked read.
#[derive(Debug, Clone)]
pub struct ReadAllResponse {
    pub updated: usize,
}

/// How many messages are unread.
#[derive(Debug, Clone)]
pub struct UnreadCountResponse {
    pub unread_count: i64,
}

/// The first page is the default.
pub fn default_page() -> (r: usize)
    ensures
        r == 1,
{
    1
}

/// Twenty items per page is the default.
pub fn default_page_size() -> (r: usize)
    ensures
        r == 20,
{
    20
}

/// The page to show: pages count from 1.
pub fn effective_page(page: usize) -> (r: usize)
    ensures
        r == (if page < 1 { 1 } else { page }),
{
    if page < 1 { 1 } else { page }
}

/// The page size to use: between 1 and 100.
pub fn effective_page_size(page_size: usize) -> (r: usize)
    ensures
        r == (if page_size < 1 { 1 } else if page_size > 100 { 100 } else { page_size }),
{
    if page_size < 1 {
        1
    } else if page_size > 100 {
        100
    } else {
        page_size
    }
}

/// How a message is listed; the time is in RFC 3339.
pub fn message_list_item(m: &Message) -> (r: MessageListItem)
    ensures
        r.id == m.id,
        r.title == m.title,
        r.repo_name == m.repo_name,
        r.summary == m.summary,
        r.commit_range == m.commit_range,
        r.is_read == m.is_read,
        r.created_at@ == rfc3339_of(m.created_at),
{
    MessageListItem {
        id: m.id,
        title: m.title.clone(),
        repo_name: crate::text::clone_opt(&m.repo_name),
        summary: m.summary.clone(),
        commit_range: crate::text::clone_opt(&m.commit_range),
        is_read: m.is_read,
        created_at: crate::time::format_rfc3339(m.created_at),
    }
}

/// Whether `item` is how `m` is listed.
pub open spec fn lists(item: MessageListItem, m: Message) -> bool {
    &&& item.id == m.id
    &&& item.title == m.title
    &&& item.repo_name == m.repo_name
    &&& item.summary == m.summary
    &&& item.commit_range == m.commit_range
    &&& item.is_read == m.is_read
    &&& item.created_at@ == rfc3339_of(m.created_at)
}

/// A page of the inbox, its messages listed in order.
pub fn messages_response(messages: &Vec<Message>, total: i64, unread_count: i64, page: usize, page_size: usize) -> (r: MessagesResponse)
    ensures
        r.total == total,
        r.unread_count == unread_count,
        r.page == page,
        r.page_size == page_size,
        r.items@.len() == messages@.len(),
        forall|i: int| 0 <= i < messages@.len() ==> lists(#[trigger] r.items@[i], messages@[i]),
{
    let mut items: Vec<MessageListItem> = Vec::new();
    let mut i: usize = 0;
    while i < messages.len()
        invariant
            i <= messages.len(),
            items@.len() == i,
            forall|j: int| 0 <= j < i ==> lists(#[trigger] items@[j], messages@[j]),
        decreases messages.len() - i,
    {
        items.push(message_list_item(&messages[i]));
        i = i + 1;
    }
    MessagesResponse { total, unread_count, page, page_size, items }
}

/// How an opened message is shown; it counts as read when it is marked
/// read or has a read time.
pub fn message_detail(m: Message) -> (r: MessageDetailResponse)
    ensures
        r.id == m.id,
        r.title == m.title,
        r.repo_name == m.repo_name,
        r.content == m.content,
        r.report_path == m.report_path,
        r.commit_range == m.commit_range,
        r.is_read == (m.is_read || m.read_at is Some),
        r.created_at@ == rfc3339_of(m.created_at),
{
    let is_read = m.is_read || m.read_at.is_some();
    MessageDetailResponse {
        id: m.id,
        title: m.title,
        repo_name: m.repo_name,
        content: m.content,
        report_path: m.report_path,
        commit_range: m.commit_range,
        is_read,
        created_at: crate::time::format_rfc3339(m.created_at),
    }
}

/// The answer when a message does not exist or is not the caller's.
pub fn message_not_found() -> (r: ApiError)
    ensures
        r.status == NOT_FOUND,
        r.message@ == "message not found"@,
{
    ApiError::new(NOT_FOUND, "message not found")
}


/// The answer to opening a message: the super administrator has no inbox
/// (403); otherwise the caller's message as read back after it was marked
/// read, or 404 when the caller has no such message.
pub fn open_message(caller: &AuthUser, found: Option<Message>) -> (r: Result<MessageDetailResponse, ApiError>)
    ensures
        caller.user_id is None ==> (r matches Err(e) && e.status == FORBIDDEN),
        caller.user_id is Some ==> match found {
            None => r matches Err(e) && e.status == NOT_FOUND && e.message@ == "message not found"@,
            Some(m) => r matches Ok(d) && d.id == m.id && d.content == m.content && d.title == m.title
                && d.is_read == (m.is_read || m.read_at is Some),
        },
{
    let _user_id = caller.require_user_id()?;
    match found {
        None => Err(message_not_found()),
        Some(m) => Ok(message_detail(m)),
    }
}

} // verus!
