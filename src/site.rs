//! The served content, the fixed handlers and the responses they build.

use vstd::prelude::*;
use crate::headers::{
    ascii_bytes, ascii_to_vec, create_content_disposition, disposition_for, ContentDisposition,
    DispositionView,
};

verus! {

/// Status of a served resource.
pub const STATUS_OK: u16 = 200;

/// Status of the route that always reports a client error.
pub const STATUS_BAD_REQUEST: u16 = 400;

/// Status of a path that no route matches.
pub const STATUS_NOT_FOUND: u16 = 404;

/// Status of a page whose rendering failed.
pub const STATUS_INTERNAL_ERROR: u16 = 500;

/// The two switches that shape every response, fixed for the server's lifetime.
#[derive(Clone, Copy, Debug, PartialEq, Eq, Structural)]
pub struct Config {
    /// Send the true media type of each resource, else a made-up one.
    pub correct_mimes: bool,
    /// Offer resources as attachments, else inline.
    pub download: bool,
}

/// The fixed handlers a path can be bound to.
#[derive(Clone, Copy, Debug, PartialEq, Eq, Structural)]
pub enum Route {
    /// The HTML index page, shown in place.
    Index,
    /// The sample image.
    Image,
    /// The sample PDF document.
    Pdf,
    /// A short plain-text body.
    Text,
    /// The index page again, this time with a disposition header.
    Html,
    /// Always a client error with an empty body.
    Error,
}

/// An HTTP response: status, the two headers this server sets, and the body.
#[derive(Clone, Debug)]
pub struct Response {
    pub status: u16,
    pub content_type: Option<String>,
    pub content_disposition: Option<ContentDisposition>,
    pub body: Vec<u8>,
}

/// The mathematical value of a `Response`.
pub struct ResponseView {
    pub status: u16,
    pub content_type: Option<Seq<char>>,
    pub disposition: Option<DispositionView>,
    pub body: Seq<u8>,
}

impl View for Response {
    type V = ResponseView;

    open spec fn view(&self) -> ResponseView {
        ResponseView {
            status: self.status,
            content_type: match &self.content_type {
                Some(s) => Some(s@),
                None => None,
            },
            disposition: match &self.content_disposition {
                Some(d) => Some(d@),
                None => None,
            },
            body: self.body@,
        }
    }
}

/// Everything the handlers serve: the configuration and the content, loaded
/// once before the server starts and never changed afterwards.
pub struct Site {
    pub config: Config,
    /// The sample image's bytes.
    pub image: Vec<u8>,
    /// The sample PDF's bytes.
    pub pdf: Vec<u8>,
    /// The rendered index page, or `None` where rendering failed.
    pub index_page: Option<Vec<u8>>,
}

/// The mathematical value of a `Site`.
pub struct SiteView {
    pub config: Config,
    pub image: Seq<u8>,
    pub pdf: Seq<u8>,
    pub index_page: Option<Seq<u8>>,
}

impl View for Site {
    type V = SiteView;

    open spec fn view(&self) -> SiteView {
        SiteView {
            config: self.config,
            image: self.image@,
            pdf: self.pdf@,
            index_page: match &self.index_page {
                Some(p) => Some(p@),
                None => None,
            },
        }
    }
}

/// A response with the given status, no headers and an empty body.
pub open spec fn bare(status: u16) -> ResponseView {
    ResponseView { status, content_type: None, disposition: None, body: Seq::empty() }
}

/// The body of the text route.
pub open spec fn text_body() -> Seq<u8> {
    ascii_bytes("neki text 1"@)
}

/// The media type a route declares: the true one when `correct` holds, else
/// a made-up one. The index page always declares HTML; the error route none.
pub open spec fn content_type_of(route: Route, correct: bool) -> Option<Seq<char>> {
    match route {
        Route::Index => Some("text/html"@),
        Route::Image => Some(if correct { "image/png"@ } else { "mytype/forimg"@ }),
        Route::Pdf => Some(if correct { "application/pdf"@ } else { "mytype/forpdf"@ }),
        Route::Text => Some(if correct { "text/plain"@ } else { "mytype/fortext"@ }),
        Route::Html => Some(if correct { "text/html"@ } else { "mytype/forhtml"@ }),
        Route::Error => None,
    }
}

/// The filename a route's disposition header names; `None` for the routes
/// that send no disposition header.
pub open spec fn filename_of(route: Route) -> Option<Seq<u8>> {
    match route {
        Route::Image => Some(ascii_bytes("image.png"@)),
        Route::Pdf => Some(ascii_bytes("sample-pdf.pdf"@)),
        Route::Text => Some(ascii_bytes("text.txt"@)),
        Route::Html => Some(ascii_bytes("page.html"@)),
        _ => None,
    }
}

/// The disposition header a route sends under the `download` switch.
pub open spec fn disposition_of(route: Route, download: bool) -> Option<DispositionView> {
    match filename_of(route) {
        Some(f) => Some(DispositionView { disposition: disposition_for(download), filename: f }),
        None => None,
    }
}

/// The body a route serves, where it succeeds.
pub open spec fn body_of(site: SiteView, route: Route) -> Seq<u8> {
    match route {
        Route::Image => site.image,
        Route::Pdf => site.pdf,
        Route::Text => text_body(),
        Route::Index | Route::Html => site.index_page.unwrap(),
        Route::Error => Seq::empty(),
    }
}

/// Whether the route depends on the rendered index page.
pub open spec fn needs_page(route: Route) -> bool {
    route == Route::Index || route == Route::Html
}

/// The response a handler gives: 400 on the error route, 500 where the
/// index page is needed but failed to render, else 200 with the route's
/// headers and body.
pub open spec fn serve_spec(site: SiteView, route: Route) -> ResponseView {
    if route == Route::Error {
        bare(STATUS_BAD_REQUEST)
    } else if needs_page(route) && site.index_page is None {
        bare(STATUS_INTERNAL_ERROR)
    } else {
        ResponseView {
            status: STATUS_OK,
            content_type: content_type_of(route, site.config.correct_mimes),
            disposition: disposition_of(route, site.config.download),
            body: body_of(site, route),
        }
    }
}

/// An owned copy of a string literal.
fn owned(s: &str) -> (r: String)
    ensures
        r@ == s@,
{
    s.to_owned()
}

/// The response for a path that no route matches.
pub fn not_found() -> (r: Response)
    ensures
        r@ == bare(STATUS_NOT_FOUND),
{
    let r = Response {
        status: STATUS_NOT_FOUND,
        content_type: None,
        content_disposition: None,
        body: Vec::new(),
    };
    assert(r@.body =~= Seq::<u8>::empty());
    r
}

/// A response with the given status, no headers and an empty body.
fn bare_response(status: u16) -> (r: Response)
    ensures
        r@ == bare(status),
{
    let r = Response { status, content_type: None, content_disposition: None, body: Vec::new() };
    assert(r@.body =~= Seq::<u8>::empty());
    r
}

impl Site {
    /// The media type that `route` declares under this site's configuration.
    fn content_type(&self, route: Route) -> (r: Option<String>)
        ensures
            match r {
                Some(s) => content_type_of(route, self.config.correct_mimes) == Some(s@),
                None => content_type_of(route, self.config.correct_mimes) is None,
            },
    {
        let correct = self.config.correct_mimes;
        match route {
            Route::Index => Some(owned("text/html")),
            Route::Image => Some(if correct { owned("image/png") } else { owned("mytype/forimg") }),
            Route::Pdf => Some(
                if correct {
                    owned("application/pdf")
                } else {
                    owned("mytype/forpdf")
                },
            ),
            Route::Text => Some(
                if correct {
                    owned("text/plain")
                } else {
                    owned("mytype/fortext")
                },
            ),
            Route::Html => Some(if correct { owned("text/html") } else { owned("mytype/forhtml") }),
            Route::Error => None,
        }
    }

    /// The disposition header that `route` sends under this site's configuration.
    fn content_disposition(&self, route: Route) -> (r: Option<ContentDisposition>)
        ensures
            match r {
                Some(d) => disposition_of(route, self.config.download) == Some(d@),
                None => disposition_of(route, self.config.download) is None,
            },
    {
        let name = match route {
            Route::Image => {
                proof {
                    reveal_strlit("image.png");
                }
                ascii_to_vec("image.png")
            },
            Route::Pdf => {
                proof {
                    reveal_strlit("sample-pdf.pdf");
                }
                ascii_to_vec("sample-pdf.pdf")
            },
            Route::Text => {
                proof {
                    reveal_strlit("text.txt");
                }
                ascii_to_vec("text.txt")
            },
            Route::Html => {
                proof {
                    reveal_strlit("page.html");
                }
                ascii_to_vec("page.html")
            },
            _ => {
                return None;
            },
        };
        Some(create_content_disposition(name.as_slice(), self.config.download))
    }

    /// Runs the handler bound to `route`.
    pub fn serve(&self, route: Route) -> (r: Response)
        ensures
            r@ == serve_spec(self@, route),
    {
        if route == Route::Error {
            return bare_response(STATUS_BAD_REQUEST);
        }
        let body = match route {
            Route::Image => vstd::slice::slice_to_vec(self.image.as_slice()),
            Route::Pdf => vstd::slice::slice_to_vec(self.pdf.as_slice()),
            Route::Text => {
                proof {
                    reveal_strlit("neki text 1");
                }
                ascii_to_vec("neki text 1")
            },
            _ => match &self.index_page {
                Some(page) => vstd::slice::slice_to_vec(page.as_slice()),
                None => {
                    return bare_response(STATUS_INTERNAL_ERROR);
                },
            },
        };
        let r = Response {
            status: STATUS_OK,
            content_type: self.content_type(route),
            content_disposition: self.content_disposition(route),
            body,
        };
        r
    }
}

} // verus!
