use zero2prod::helpers::Reply;
use zero2prod::routes::admin::dashboard::{dashboard_page, dashboard_reply};
use zero2prod::routes::admin::password::{change_password_page, flash_html, validate_new_password};
use zero2prod::routes::home::home_page;
use zero2prod::routes::login::login_page;

fn templates() -> tera::Tera {
    let mut tera = tera::Tera::default();
    tera.add_raw_template("home.html", "<h1>Welcome</h1>").unwrap();
    tera.add_raw_template(
        "login.html",
        "{% for m in messages %}<p><i>{{ m }}</i></p>{% endfor %}<form></form>",
    )
    .unwrap();
    tera.add_raw_template("dashboard.html", "Welcome {{ username }}!")
        .unwrap();
    tera.add_raw_template(
        "change_password.html",
        "{{ msg_html | safe }}<form></form>",
    )
    .unwrap();
    tera
}

#[test]
fn home_page_renders_home_html() {
    assert_eq!(
        home_page(&templates()),
        Reply::Html("<h1>Welcome</h1>".to_string())
    );
}

#[test]
fn home_page_without_template_is_an_empty_500() {
    assert_eq!(home_page(&tera::Tera::default()), Reply::InternalError);
}

#[test]
fn login_page_shows_flash_messages() {
    let reply = login_page(&templates(), vec!["Authentication failed".to_string()]);
    assert_eq!(
        reply,
        Reply::Html("<p><i>Authentication failed</i></p><form></form>".to_string())
    );
}

#[test]
fn login_page_without_messages_shows_none() {
    match login_page(&templates(), vec![]) {
        Reply::Html(html) => assert!(!html.contains("Authentication failed")),
        other => panic!("unexpected reply {:?}", other),
    }
}

#[test]
fn login_page_without_template_is_an_empty_500() {
    assert_eq!(login_page(&tera::Tera::default(), vec![]), Reply::InternalError);
}

#[test]
fn dashboard_greets_the_user() {
    assert_eq!(
        dashboard_page(&templates(), "ada"),
        Reply::Html("Welcome ada!".to_string())
    );
}

#[test]
fn dashboard_render_failure_carries_a_message() {
    assert_eq!(
        dashboard_page(&tera::Tera::default(), "ada"),
        Reply::InternalErrorMessage("error while trying to render the dashboard html".to_string())
    );
    assert_eq!(
        dashboard_reply(Ok("page".to_string())),
        Reply::Html("page".to_string())
    );
}

#[test]
fn flash_html_concatenates_messages() {
    assert_eq!(flash_html(&vec![]), "");
    assert_eq!(
        flash_html(&vec!["<p>a</p>".to_string(), "<p>b</p>".to_string()]),
        "<p>a</p><p>b</p>"
    );
}

#[test]
fn change_password_page_shows_messages() {
    assert_eq!(
        change_password_page(&templates(), &vec!["<p>x</p>".to_string()]),
        Reply::Html("<p>x</p><form></form>".to_string())
    );
    assert_eq!(
        change_password_page(&tera::Tera::default(), &vec![]),
        Reply::InternalError
    );
}

#[test]
fn new_password_length_bounds() {
    assert!(!validate_new_password(&"a".repeat(11)));
    assert!(validate_new_password(&"a".repeat(12)));
    assert!(validate_new_password(&"a".repeat(128)));
    assert!(!validate_new_password(&"a".repeat(129)));
    assert!(!validate_new_password(""));
}

#[test]
fn new_password_length_counts_bytes() {
    // six two-byte characters: 12 bytes
    assert!(validate_new_password(&"é".repeat(6)));
    assert!(!validate_new_password(&"é".repeat(5)));
}
