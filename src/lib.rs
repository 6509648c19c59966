//! The listing page of the Catdex site: the records read from the store, the
//! page that is rendered from them, and the decisions that a request to the
//! listing page goes through.
mod handler;
mod models;
mod page;

pub use handler::{
    Action, Event, Flow, Response, FALLBACK_BODY, INDEX_TEMPLATE, STATUS_OK,
    STATUS_SERVER_ERROR, STORE_ERROR_BODY,
};
pub use models::Cat;
pub use page::{build_page, lemma_page_lists_store_rows, listed, site_name, PageView, ROW_LIMIT, SITE_NAME};
