//! Properties that relate the router, the handlers and the configuration.

use vstd::prelude::*;
use crate::headers::{ascii_bytes, disposition_for, DispositionView};
use crate::router::{dispatch, join_segments, standard_routes};
use crate::site::{
    bare, serve_spec, text_body, Config, ResponseView, Route, SiteView, STATUS_BAD_REQUEST,
    STATUS_INTERNAL_ERROR, STATUS_NOT_FOUND, STATUS_OK,
};

verus! {

/// Each registered path of the server answers with its documented status,
/// `Content-Type`, `Content-Disposition` and body, and every other path
/// answers 404 with an empty body.
pub proof fn law_documented_routes(site: SiteView, path: Seq<char>)
    ensures
        ({
            let r = dispatch(standard_routes(), site, path);
            let correct = site.config.correct_mimes;
            let kind = disposition_for(site.config.download);
            &&& path == ""@ ==> r == match site.index_page {
                Some(page) => ResponseView {
                    status: STATUS_OK,
                    content_type: Some("text/html"@),
                    disposition: None,
                    body: page,
                },
                None => bare(STATUS_INTERNAL_ERROR),
            }
            &&& path == "res/image1"@ ==> r == ResponseView {
                status: STATUS_OK,
                content_type: Some(if correct { "image/png"@ } else { "mytype/forimg"@ }),
                disposition: Some(DispositionView { disposition: kind, filename: ascii_bytes("image.png"@) }),
                body: site.image,
            }
            &&& path == "res/pdf1"@ ==> r == ResponseView {
                status: STATUS_OK,
                content_type: Some(if correct { "application/pdf"@ } else { "mytype/forpdf"@ }),
                disposition: Some(DispositionView { disposition: kind, filename: ascii_bytes("sample-pdf.pdf"@) }),
                body: site.pdf,
            }
            &&& path == "res/text1"@ ==> r == ResponseView {
                status: STATUS_OK,
                content_type: Some(if correct { "text/plain"@ } else { "mytype/fortext"@ }),
                disposition: Some(DispositionView { disposition: kind, filename: ascii_bytes("text.txt"@) }),
                body: text_body(),
            }
            &&& path == "html"@ ==> r == match site.index_page {
                Some(page) => ResponseView {
                    status: STATUS_OK,
                    content_type: Some(if correct { "text/html"@ } else { "mytype/forhtml"@ }),
                    disposition: Some(DispositionView { disposition: kind, filename: ascii_bytes("page.html"@) }),
                    body: page,
                },
                None => bare(STATUS_INTERNAL_ERROR),
            }
            &&& path == "error"@ ==> r == bare(STATUS_BAD_REQUEST)
            &&& !standard_routes().contains_key(path) ==> r == bare(STATUS_NOT_FOUND)
        }),
{
    reveal_strlit("");
    reveal_strlit("res/image1");
    reveal_strlit("res/pdf1");
    reveal_strlit("res/text1");
    reveal_strlit("html");
    reveal_strlit("error");
    let t = standard_routes();
    assert(""@.len() == 0);
    assert("res/image1"@.len() == 10);
    assert("res/pdf1"@.len() == 8);
    assert("res/text1"@.len() == 9);
    assert("html"@.len() == 4);
    assert("error"@.len() == 5);
    assert(t.contains_key(""@) && t[""@] == Route::Index);
    assert(t.contains_key("res/image1"@) && t["res/image1"@] == Route::Image);
    assert(t.contains_key("res/pdf1"@) && t["res/pdf1"@] == Route::Pdf);
    assert(t.contains_key("res/text1"@) && t["res/text1"@] == Route::Text);
    assert(t.contains_key("html"@) && t["html"@] == Route::Html);
    assert(t.contains_key("error"@) && t["error"@] == Route::Error);
}

/// Requests for the same path through the same table and content give the
/// same response: dispatch keeps no state between requests.
pub proof fn law_repeat_request(
    table: Map<Seq<char>, Route>,
    site: SiteView,
    first: Seq<Seq<char>>,
    second: Seq<Seq<char>>,
)
    requires
        join_segments(first) == join_segments(second),
    ensures
        dispatch(table, site, join_segments(first)) == dispatch(table, site, join_segments(second)),
{
}

/// Switching the "correct MIME" flag leaves every route's status,
/// disposition and body as they were, and on each content route that
/// succeeds it changes the `Content-Type` value.
pub proof fn law_mime_flag_only_changes_content_type(site: SiteView, route: Route)
    ensures
        ({
            let flipped = SiteView {
                config: Config { correct_mimes: !site.config.correct_mimes, ..site.config },
                ..site
            };
            let a = serve_spec(site, route);
            let b = serve_spec(flipped, route);
            &&& a.status == b.status
            &&& a.disposition == b.disposition
            &&& a.body == b.body
            &&& a.status == STATUS_OK && route != Route::Index ==> a.content_type != b.content_type
        }),
{
    reveal_strlit("image/png");
    reveal_strlit("mytype/forimg");
    reveal_strlit("application/pdf");
    reveal_strlit("mytype/forpdf");
    reveal_strlit("text/plain");
    reveal_strlit("mytype/fortext");
    reveal_strlit("text/html");
    reveal_strlit("mytype/forhtml");
    assert("image/png"@.len() != "mytype/forimg"@.len());
    assert("application/pdf"@.len() != "mytype/forpdf"@.len());
    assert("text/plain"@.len() != "mytype/fortext"@.len());
    assert("text/html"@.len() != "mytype/forhtml"@.len());
}

} // verus!
