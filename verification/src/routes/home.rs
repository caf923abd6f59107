//! The home page.

use vstd::prelude::*;
use crate::helpers::{
    empty_lists, empty_text, page_reply, render_html, renders_to, tera_template_names, Reply,
};

verus! {

/// The home page: `home.html` rendered with an empty context, or an empty
/// 500 when rendering fails.
pub fn home_page(tera: &tera::Tera) -> (r: Reply)
    ensures
        r is Html || r is InternalError,
        r matches Reply::Html(h) ==> renders_to(
            *tera,
            "home.html"@,
            empty_text(),
            empty_lists(),
            h@,
        ),
        !tera_template_names(*tera).contains("home.html"@) ==> r is InternalError,
{
    let args: [(&str, &str); 0] = [];
    assert(crate::helpers::pairs_map(args@) == empty_text());
    page_reply(render_html(tera, &args, String::from_str("home.html")))
}

} // verus!
