use crate::models::Cat;
use crate::page::{build_page, PageView, ROW_LIMIT};
use vstd::prelude::*;

verus! {

/// Name of the template that the listing page is rendered with.
pub const INDEX_TEMPLATE: &'static str = "index";

/// Status of an answer that carries the page or the fallback notice.
pub const STATUS_OK: u16 = 200;

/// Status of an answer when the store could not be reached or read.
pub const STATUS_SERVER_ERROR: u16 = 500;

/// Body sent when the page could not be rendered.
pub const FALLBACK_BODY: &'static str =
    "Aww.. Nothing to show, server error. Please file an issue at github.com/ahmad-su";

/// Body sent when no connection could be had or the listing query failed.
pub const STORE_ERROR_BODY: &'static str =
    "Server error: the records could not be read. Please try again later.";

/// The answer to one request for the listing page; its body is HTML.
pub struct Response {
    pub status: u16,
    pub body: String,
}

impl Response {
    pub open spec fn is_page(&self, body: String) -> bool {
        self.status == STATUS_OK && self.body == body
    }

    pub open spec fn is_fallback(&self) -> bool {
        self.status == STATUS_OK && self.body@ == FALLBACK_BODY@
    }

    pub open spec fn is_store_error(&self) -> bool {
        self.status == STATUS_SERVER_ERROR && self.body@ == STORE_ERROR_BODY@
    }

    /// The rendered page.
    pub fn page(body: String) -> (r: Response)
        ensures
            r.is_page(body),
    {
        Response { status: STATUS_OK, body }
    }

    /// The notice that the page could not be rendered.
    pub fn fallback() -> (r: Response)
        ensures
            r.is_fallback(),
    {
        let body = FALLBACK_BODY.to_string();
        proof {
            broadcast use vstd::string::to_string_from_display_ensures_for_str;
        }
        Response { status: STATUS_OK, body }
    }

    /// The notice that the records could not be read.
    pub fn store_error() -> (r: Response)
        ensures
            r.is_store_error(),
    {
        let body = STORE_ERROR_BODY.to_string();
        proof {
            broadcast use vstd::string::to_string_from_display_ensures_for_str;
        }
        Response { status: STATUS_SERVER_ERROR, body }
    }
}

/// What the request handler asks its environment to do next.
pub enum Action {
    /// Check a connection out of the pool.
    Acquire,
    /// Run the listing query on the checked-out connection, reading at most
    /// `limit` rows.
    Query { limit: usize },
    /// Give the checked-out connection back to the pool.
    Release,
    /// Render the index template from this page.
    Render(PageView),
    /// Send this answer; the request is over.
    Respond(Response),
}

/// What the environment reports back after performing an action.
pub enum Event {
    /// A connection was checked out.
    Acquired,
    /// No connection could be checked out.
    AcquireFailed,
    /// The listing query returned these rows.
    Loaded(Vec<Cat>),
    /// The listing query failed.
    QueryFailed,
    /// The connection went back to the pool.
    Released,
    /// The template rendered to this text.
    Rendered(String),
    /// The template could not be rendered (no such template, for one).
    RenderFailed,
}

/// Where one request for the listing page stands.
pub enum Flow {
    /// Waiting for a connection.
    Acquiring,
    /// Holding a connection, waiting for the query's rows.
    Querying,
    /// Giving the connection back; holds the page to render, or nothing when
    /// the query failed.
    Releasing(Option<PageView>),
    /// Waiting for the rendered text.
    Rendering,
    /// Answered.
    Done,
}

impl Flow {
    /// A connection is checked out for this request.
    pub open spec fn holds_connection(&self) -> bool {
        self is Querying || self is Releasing
    }

    /// The events that can follow the action that led to this stage.
    pub open spec fn expects(&self, ev: Event) -> bool {
        match self {
            Flow::Acquiring => ev is Acquired || ev is AcquireFailed,
            Flow::Querying => ev is Loaded || ev is QueryFailed,
            Flow::Releasing(_) => ev is Released,
            Flow::Rendering => ev is Rendered || ev is RenderFailed,
            Flow::Done => false,
        }
    }

    pub fn accepts(&self, ev: &Event) -> (r: bool)
        ensures
            r == self.expects(*ev),
    {
        match self {
            Flow::Acquiring => matches!(ev, Event::Acquired | Event::AcquireFailed),
            Flow::Querying => matches!(ev, Event::Loaded(_) | Event::QueryFailed),
            Flow::Releasing(_) => matches!(ev, Event::Released),
            Flow::Rendering => matches!(ev, Event::Rendered(_) | Event::RenderFailed),
            Flow::Done => false,
        }
    }

    /// Starts a request: the first thing it needs is a connection.
    pub fn begin() -> (r: (Flow, Action))
        ensures
            r.0 is Acquiring,
            r.1 is Acquire,
    {
        (Flow::Acquiring, Action::Acquire)
    }

    /// The next stage and action after `ev`.
    pub fn step(self, ev: Event) -> (r: (Flow, Action))
        requires
            self.expects(ev),
        ensures
            self is Acquiring && ev is Acquired ==> r.0 is Querying && r.1 is Query
                && r.1->limit == ROW_LIMIT,
            self is Acquiring && ev is AcquireFailed ==> r.0 is Done && r.1 is Respond
                && r.1->Respond_0.is_store_error(),
            self is Querying && ev is Loaded ==> r.0 is Releasing && r.1 is Release
                && r.0->Releasing_0 is Some && r.0->Releasing_0->Some_0.is_page_of(
                ev->Loaded_0@,
            ),
            self is Querying && ev is QueryFailed ==> r.0 is Releasing && r.1 is Release
                && r.0->Releasing_0 is None,
            self is Releasing && self->Releasing_0 is Some ==> r.0 is Rendering && r.1 is Render
                && r.1->Render_0 == self->Releasing_0->Some_0,
            self is Releasing && self->Releasing_0 is None ==> r.0 is Done && r.1 is Respond
                && r.1->Respond_0.is_store_error(),
            self is Rendering && ev is Rendered ==> r.0 is Done && r.1 is Respond
                && r.1->Respond_0.is_page(ev->Rendered_0),
            self is Rendering && ev is RenderFailed ==> r.0 is Done && r.1 is Respond
                && r.1->Respond_0.is_fallback(),
            r.1 is Release ==> self.holds_connection() && r.0.holds_connection(),
            r.1 is Render || r.1 is Respond ==> !r.0.holds_connection(),
            r.1 is Respond <==> r.0 is Done,
    {
        match self {
            Flow::Acquiring => match ev {
                Event::Acquired => (Flow::Querying, Action::Query { limit: ROW_LIMIT }),
                _ => (Flow::Done, Action::Respond(Response::store_error())),
            },
            Flow::Querying => match ev {
                Event::Loaded(rows) => {
                    let page = build_page(rows);
                    (Flow::Releasing(Some(page)), Action::Release)
                },
                _ => (Flow::Releasing(None), Action::Release),
            },
            Flow::Releasing(pending) => match pending {
                Some(page) => (Flow::Rendering, Action::Render(page)),
                None => (Flow::Done, Action::Respond(Response::store_error())),
            },
            Flow::Rendering => match ev {
                Event::Rendered(body) => (Flow::Done, Action::Respond(Response::page(body))),
                _ => (Flow::Done, Action::Respond(Response::fallback())),
            },
            Flow::Done => (Flow::Done, Action::Respond(Response::fallback())),
        }
    }
}

} // verus!
