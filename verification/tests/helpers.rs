use zero2prod::helpers::{
    chain_report, error_chain_fmt, messages_context, page_reply, render_context, render_html,
    render_multiple_msg, Reply,
};

fn templates() -> tera::Tera {
    let mut tera = tera::Tera::default();
    tera.add_raw_template("greeting.html", "<p>{{ who }} {{ what }}</p>")
        .unwrap();
    tera.add_raw_template(
        "list.html",
        "{% for m in messages %}<p><i>{{ m }}</i></p>{% endfor %}",
    )
    .unwrap();
    tera
}

#[test]
fn error_chain_fmt_without_causes() {
    assert_eq!(error_chain_fmt("boom", &vec![]), "boom\n\n");
}

#[test]
fn error_chain_fmt_lists_every_cause() {
    let causes = vec!["first".to_string(), "second".to_string()];
    assert_eq!(
        error_chain_fmt("top", &causes),
        "top\n\nCaused by:\n\tfirst\nCaused by:\n\tsecond\n"
    );
}

#[test]
fn chain_report_splits_first_message() {
    let messages = vec!["outer".to_string(), "inner".to_string()];
    assert_eq!(chain_report(&messages), "outer\n\nCaused by:\n\tinner\n");
}

#[test]
fn render_context_of_no_pairs_is_empty() {
    assert_eq!(render_context(&[]).into_json().to_string(), "{}");
}

#[test]
fn render_context_keeps_last_value_per_key() {
    let ctx = render_context(&[("a", "1"), ("b", "2"), ("a", "3")]);
    assert_eq!(ctx.into_json().to_string(), r#"{"a":"3","b":"2"}"#);
}

#[test]
fn messages_context_holds_the_list() {
    let ctx = messages_context(&vec!["x".to_string()]);
    assert_eq!(ctx.into_json().to_string(), r#"{"messages":["x"]}"#);
}

#[test]
fn render_html_fills_the_template() {
    let tera = templates();
    let html = render_html(
        &tera,
        &[("who", "Ada"), ("what", "hello")],
        "greeting.html".to_string(),
    )
    .unwrap();
    assert_eq!(html, "<p>Ada hello</p>");
}

#[test]
fn render_html_escapes_values() {
    let tera = templates();
    let html = render_html(
        &tera,
        &[("who", "<b>"), ("what", "x")],
        "greeting.html".to_string(),
    )
    .unwrap();
    assert_eq!(html, "<p>&lt;b&gt; x</p>");
}

#[test]
fn render_html_fails_on_unknown_template() {
    let tera = templates();
    assert!(render_html(&tera, &[], "missing.html".to_string()).is_err());
}

#[test]
fn render_multiple_msg_renders_every_message() {
    let tera = templates();
    let html = render_multiple_msg(
        &tera,
        vec!["Authentication failed".to_string()],
        "list.html".to_string(),
    )
    .unwrap();
    assert_eq!(html, "<p><i>Authentication failed</i></p>");
    let empty = render_multiple_msg(&tera, vec![], "list.html".to_string()).unwrap();
    assert!(!empty.contains("Authentication failed"));
}

#[test]
fn render_html_keeps_the_last_value_of_a_key() {
    let tera = templates();
    let html = render_html(
        &tera,
        &[("who", "A"), ("what", "B"), ("who", "C")],
        "greeting.html".to_string(),
    )
    .unwrap();
    assert_eq!(html, "<p>C B</p>");
}

#[test]
fn page_reply_maps_rendering_results() {
    assert_eq!(page_reply(Ok("x".to_string())), Reply::Html("x".to_string()));
    assert_eq!(
        page_reply(Err(tera::Error::msg("broken"))),
        Reply::InternalError
    );
}
