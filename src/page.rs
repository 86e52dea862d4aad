//! The page that names the machine's architecture, rendered from a
//! handlebars template.
use crate::http::{build_http_response, error_response, healthy_response, http_response, Route, HEALTHY_PAGE, NOT_FOUND_PAGE, STATUS_NOT_FOUND, STATUS_OK};
use handlebars::{Handlebars, RenderError};
use vstd::prelude::*;

verus! {

/// handlebars' rendering error, carried through unopened.
#[verifier::external_type_specification]
#[verifier::external_body]
pub struct ExRenderError(RenderError);

/// The template of the architecture page; `{{architecture}}` is filled in.
pub const PAGE_TEMPLATE: &'static str = "
    <!DOCTYPE html>
    <html lang=\"en\">
    <head>
        <meta charset=\"utf-8\">
        <title>Multi architecture</title>
    </head>
    <body>
        <h1>Response from {{architecture}} architecture</h1>
    </body>
    </html>
    ";

/// The text handlebars renders from `template` with the single field
/// `architecture` set to the given string.
pub uninterp spec fn rendered_page(template: Seq<char>, architecture: Seq<char>) -> Seq<char>;

/// Relies on `handlebars::Handlebars::render_template`, called on a fresh
/// registry with the data `{"architecture": architecture}`. The registry is
/// not strict, the data serializes without fail, the page template holds one
/// plain lookup of that field and no partial, and the output goes to a
/// string: rendering the page template succeeds, and what it renders depends
/// on the template and that value alone.
#[verifier::external_body]
fn render_with_architecture(template: &str, architecture: &str) -> (r: Result<String, RenderError>)
    requires
        template@ == PAGE_TEMPLATE@,
    ensures
        r is Ok,
        r is Ok ==> r->Ok_0@ == rendered_page(template@, architecture@),
{
    let mut data = serde_json::Map::new();
    data.insert("architecture".to_string(), serde_json::Value::String(architecture.to_string()));
    Handlebars::new().render_template(template, &serde_json::Value::Object(data))
}

/// Why a response could not be produced.
#[derive(Clone, Copy, Debug, PartialEq, Eq, Structural)]
pub enum PageError {
    /// The template engine refused to render the page.
    Render,
}

/// The architecture page for `architecture`, framed as a successful response.
pub fn ok_response(architecture: &str) -> (r: Result<String, PageError>)
    ensures
        r is Ok,
        r->Ok_0@ == http_response(STATUS_OK@, rendered_page(PAGE_TEMPLATE@, architecture@)),
{
    match render_with_architecture(PAGE_TEMPLATE, architecture) {
        Ok(contents) => Ok(build_http_response(STATUS_OK, contents)),
        Err(_) => Err(PageError::Render),
    }
}

/// The response to a request of the given route, on a machine of the given
/// architecture.
pub fn respond(route: Route, architecture: &str) -> (r: Result<String, PageError>)
    ensures
        route == Route::Health ==> r is Ok && r->Ok_0@ == http_response(STATUS_OK@, HEALTHY_PAGE@),
        route == Route::NotFound ==> r is Ok && r->Ok_0@ == http_response(STATUS_NOT_FOUND@, NOT_FOUND_PAGE@),
        route == Route::Page ==> r is Ok && r->Ok_0@ == http_response(STATUS_OK@, rendered_page(PAGE_TEMPLATE@, architecture@)),
{
    match route {
        Route::Page => ok_response(architecture),
        Route::Health => Ok(healthy_response()),
        Route::NotFound => Ok(error_response()),
    }
}

} // verus!
