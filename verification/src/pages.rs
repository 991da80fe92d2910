//! The static pages, and where a visitor without a page is sent.
//!
//! The pages are named here and served elsewhere: whoever serves them holds
//! their bytes.

use crate::error::Rejection;
use vstd::prelude::*;

verus! {

/// The kind of content of a page.
#[derive(Clone, Copy, Debug, PartialEq, Eq, Structural)]
pub enum ContentType {
    Html,
    Css,
}

/// The pages of the service.
#[derive(Clone, Copy, Debug, PartialEq, Eq, Structural)]
pub enum Page {
    /// The login form.
    Login,
    /// The registration form.
    Register,
    /// The style sheet.
    Style,
    /// The list of the user's groups.
    ChatHome,
    /// One group and its messages.
    ChatGroup,
}

/// The places a visitor can be sent to.
#[derive(Clone, Copy, Debug, PartialEq, Eq, Structural)]
pub enum Location {
    /// The list of the user's groups.
    Chat,
    /// The login form.
    Login,
}

/// The kind of content of each page: the style sheet is CSS, all else HTML.
pub open spec fn content_type_of(page: Page) -> ContentType {
    match page {
        Page::Style => ContentType::Css,
        _ => ContentType::Html,
    }
}

impl Page {
    /// The kind of content of the page.
    pub fn content_type(&self) -> (kind: ContentType)
        ensures
            kind == content_type_of(*self),
    {
        match self {
            Page::Style => ContentType::Css,
            _ => ContentType::Html,
        }
    }
}

/// Where the front door leads: to the chat for a request that carries a
/// session cookie, to the login form for one that carries none. The cookie
/// is not checked here; the chat checks it.
pub fn index(session_cookie: Option<&str>) -> (to: Location)
    ensures
        to == if session_cookie is Some {
            Location::Chat
        } else {
            Location::Login
        },
{
    match session_cookie {
        Some(_) => Location::Chat,
        None => Location::Login,
    }
}

/// The login form.
pub fn login_page() -> (file: (ContentType, Page))
    ensures
        file == (ContentType::Html, Page::Login),
{
    (Page::Login.content_type(), Page::Login)
}

/// The registration form.
pub fn register_page() -> (file: (ContentType, Page))
    ensures
        file == (ContentType::Html, Page::Register),
{
    (Page::Register.content_type(), Page::Register)
}

/// The style sheet.
pub fn style() -> (file: (ContentType, Page))
    ensures
        file == (ContentType::Css, Page::Style),
{
    (Page::Style.content_type(), Page::Style)
}

/// Where a visitor goes who was refused a page: to the login form without a
/// valid session, back to the chat from a group that does not exist or is
/// not the visitor's, and nowhere when the store has failed.
pub open spec fn refusal_leads_to(why: Rejection) -> Option<Location> {
    match why {
        Rejection::Unauthenticated => Some(Location::Login),
        Rejection::Unauthorized => Some(Location::Chat),
        Rejection::NotFound => Some(Location::Chat),
        Rejection::Conflict => None,
        Rejection::StoreError => None,
    }
}

/// Where to send a visitor who was refused a page, if anywhere.
pub fn redirect(why: Rejection) -> (to: Option<Location>)
    ensures
        to == refusal_leads_to(why),
{
    match why {
        Rejection::Unauthenticated => Some(Location::Login),
        Rejection::Unauthorized => Some(Location::Chat),
        Rejection::NotFound => Some(Location::Chat),
        Rejection::Conflict => None,
        Rejection::StoreError => None,
    }
}

} // verus!
