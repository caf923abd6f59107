//! The administrator's dashboard.

use vstd::prelude::*;
use crate::helpers::{
    empty_lists, empty_text, render_html, renders_to, tera_template_names, Reply,
};

verus! {

/// The message of the error when the dashboard cannot be rendered.
pub open spec fn dashboard_render_failure() -> Seq<char> {
    "error while trying to render the dashboard html"@
}

/// The reply of the dashboard given the result of rendering it.
pub fn dashboard_reply(rendered: Result<String, tera::Error>) -> (r: Reply)
    ensures
        rendered matches Ok(html) ==> r == Reply::Html(html),
        rendered is Err ==> (r matches Reply::InternalErrorMessage(m)
            && m@ == dashboard_render_failure()),
{
    match rendered {
        Ok(html) => Reply::Html(html),
        Err(_) => Reply::InternalErrorMessage(
            String::from_str("error while trying to render the dashboard html"),
        ),
    }
}

/// The context of the dashboard: `username` bound to the name.
pub open spec fn dashboard_text(username: Seq<char>) -> Map<Seq<char>, Seq<char>> {
    empty_text().insert("username"@, username)
}

/// The dashboard's context binds `username`, and nothing else, to the name
/// it was given, whatever that name is.
pub proof fn dashboard_binds_username(username: Seq<char>)
    ensures
        dashboard_text(username).dom() == set!["username"@],
        dashboard_text(username)["username"@] == username,
{
    assert(dashboard_text(username).dom() =~= set!["username"@]);
}

/// The dashboard of `username`: `dashboard.html` rendered with the name as
/// `username`.
pub fn dashboard_page(tera: &tera::Tera, username: &str) -> (r: Reply)
    ensures
        r is Html || (r matches Reply::InternalErrorMessage(m) && m@
            == dashboard_render_failure()),
        r matches Reply::Html(h) ==> renders_to(
            *tera,
            "dashboard.html"@,
            dashboard_text(username@),
            empty_lists(),
            h@,
        ),
        !tera_template_names(*tera).contains("dashboard.html"@) ==> r is InternalErrorMessage,
{
    let args = [("username", username)];
    assert(crate::helpers::pairs_map(args@) == dashboard_text(username@)) by {
        assert(args@.len() == 1);
        assert(args@[0].0@ == "username"@);
        assert(args@.drop_last() =~= Seq::<(&str, &str)>::empty());
        assert(crate::helpers::pairs_map(args@.drop_last()) == empty_text());
    }
    dashboard_reply(render_html(tera, &args, String::from_str("dashboard.html")))
}

} // verus!
