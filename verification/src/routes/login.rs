//! The login page.

use vstd::prelude::*;
use crate::helpers::{
    empty_text, messages_lists, page_reply, render_multiple_msg, renders_to, tera_template_names,
    Reply,
};

verus! {

/// The login page: `login.html` rendered with the flash messages as the
/// list `messages`, or an empty 500 when rendering fails.
pub fn login_page(tera: &tera::Tera, messages: Vec<String>) -> (r: Reply)
    ensures
        r is Html || r is InternalError,
        r matches Reply::Html(h) ==> renders_to(
            *tera,
            "login.html"@,
            empty_text(),
            messages_lists(messages@),
            h@,
        ),
        !tera_template_names(*tera).contains("login.html"@) ==> r is InternalError,
{
    page_reply(render_multiple_msg(tera, messages, String::from_str("login.html")))
}

} // verus!
