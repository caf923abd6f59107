//! Page rendering through Tera, the replies that handlers give, and the
//! text of an error together with its chain of causes.

use vstd::prelude::*;

verus! {

#[verifier::external_type_specification]
#[verifier::external_body]
pub struct ExTera(tera::Tera);

#[verifier::external_type_specification]
#[verifier::external_body]
pub struct ExContext(tera::Context);

#[verifier::external_type_specification]
#[verifier::external_body]
pub struct ExTeraError(tera::Error);

#[verifier::external_type_specification]
#[verifier::external_body]
pub struct ExAnyhowError(anyhow::Error);

/// Calls `anyhow::Error::chain` and takes the `Display` text of each error
/// in it, outermost first. The chain starts with the error itself, so it is
/// never empty; the texts themselves are not stated.
#[verifier::external_body]
pub(crate) fn error_chain_messages(e: &anyhow::Error) -> (r: Vec<String>)
    ensures
        r@.len() >= 1,
{
    e.chain().map(|cause| cause.to_string()).collect()
}

/// The string values that a Tera context holds, by key.
pub uninterp spec fn context_text(ctx: tera::Context) -> Map<Seq<char>, Seq<char>>;

/// The list-of-strings values that a Tera context holds, by key.
pub uninterp spec fn context_lists(ctx: tera::Context) -> Map<Seq<char>, Seq<Seq<char>>>;

/// A context with no string values.
pub open spec fn empty_text() -> Map<Seq<char>, Seq<char>> {
    Map::empty()
}

/// A context with no list values.
pub open spec fn empty_lists() -> Map<Seq<char>, Seq<Seq<char>>> {
    Map::empty()
}

/// Calls `tera::Context::new`, which makes an empty context.
#[verifier::external_body]
pub(crate) fn new_context() -> (ctx: tera::Context)
    ensures
        context_text(ctx) == empty_text(),
        context_lists(ctx) == empty_lists(),
{
    tera::Context::new()
}

/// Calls `tera::Context::insert` with a string value. The context keeps one
/// value per key (a `BTreeMap`); the new value replaces any earlier one.
/// Serialising a string cannot fail, so the call does not panic.
#[verifier::external_body]
pub(crate) fn context_insert_text(ctx: &mut tera::Context, key: &str, val: &str)
    ensures
        context_text(*final(ctx)) == context_text(*old(ctx)).insert(key@, val@),
        context_lists(*final(ctx)) == context_lists(*old(ctx)).remove(key@),
{
    ctx.insert(key.to_string(), val)
}

/// Calls `tera::Context::insert` with a list of strings. The new value
/// replaces any earlier one under the same key; serialising a vector of
/// strings cannot fail.
#[verifier::external_body]
pub(crate) fn context_insert_list(ctx: &mut tera::Context, key: &str, val: &Vec<String>)
    ensures
        context_lists(*final(ctx)) == context_lists(*old(ctx)).insert(
            key@,
            val@.map_values(|s: String| s@),
        ),
        context_text(*final(ctx)) == context_text(*old(ctx)).remove(key@),
{
    ctx.insert(key.to_string(), val)
}

/// The names of the templates that a Tera instance holds.
pub uninterp spec fn tera_template_names(tera: tera::Tera) -> Set<Seq<char>>;

/// Whether `out` is an output that rendering the template `name` of `tera`
/// can give for a context whose string values are `text` and whose list
/// values are `lists`. It is a relation, not a function: rendering may
/// depend on more than its arguments (see `tera_render`).
pub uninterp spec fn renders_to(
    tera: tera::Tera,
    name: Seq<char>,
    text: Map<Seq<char>, Seq<char>>,
    lists: Map<Seq<char>, Seq<Seq<char>>>,
    out: Seq<char>,
) -> bool;

/// Calls `tera::Tera::render`. The source looks the template up by name
/// first and fails when none of that name is loaded; that much is stated.
/// An output is tied to the template and the context it was rendered from
/// by the relation `renders_to`. Which output it is, and whether rendering
/// a loaded template succeeds, is not stated: besides the templates and the
/// context it may depend on functions registered in `tera`, among them
/// `get_env`, which reads the process environment.
#[verifier::external_body]
pub(crate) fn tera_render(tera: &tera::Tera, template_name: &str, ctx: &tera::Context) -> (r:
    Result<String, tera::Error>)
    ensures
        r matches Ok(h) ==> renders_to(
            *tera,
            template_name@,
            context_text(*ctx),
            context_lists(*ctx),
            h@,
        ),
        !tera_template_names(*tera).contains(template_name@) ==> r is Err,
{
    tera.render(template_name, ctx)
}

/// The context that a list of key/value pairs describes: later pairs
/// replace earlier ones with the same key.
pub open spec fn pairs_map(args: Seq<(&str, &str)>) -> Map<Seq<char>, Seq<char>>
    decreases args.len(),
{
    if args.len() == 0 {
        Map::empty()
    } else {
        pairs_map(args.drop_last()).insert(args.last().0@, args.last().1@)
    }
}

/// The context of a list of pairs holds exactly their keys, and binds each
/// key to the value of its last pair.
pub proof fn pairs_map_binds_last_value(args: Seq<(&str, &str)>, i: int)
    requires
        0 <= i < args.len(),
        forall|j: int| i < j < args.len() ==> #[trigger] args[j].0@ != args[i].0@,
    ensures
        pairs_map(args).dom().contains(args[i].0@),
        pairs_map(args)[args[i].0@] == args[i].1@,
    decreases args.len(),
{
    if i < args.len() - 1 {
        assert(args.last().0@ != args[i].0@) by {
            assert(args[args.len() - 1] == args.last());
        }
        assert forall|j: int| i < j < args.drop_last().len() implies #[trigger] args.drop_last()[
            j].0@ != args.drop_last()[i].0@ by {
            assert(args.drop_last()[j] == args[j]);
        }
        pairs_map_binds_last_value(args.drop_last(), i);
    }
}

/// A key is in the context of a list of pairs exactly when some pair has it.
pub proof fn pairs_map_keys(args: Seq<(&str, &str)>, k: Seq<char>)
    ensures
        pairs_map(args).dom().contains(k) <==> exists|j: int| 0 <= j < args.len() && #[trigger] args[j].0@ == k,
    decreases args.len(),
{
    if args.len() > 0 {
        pairs_map_keys(args.drop_last(), k);
        if pairs_map(args.drop_last()).dom().contains(k) {
            let j = choose|j: int| 0 <= j < args.drop_last().len() && #[trigger] args.drop_last()[j].0@ == k;
            assert(args[j] == args.drop_last()[j]);
        }
        if exists|j: int| 0 <= j < args.len() && #[trigger] args[j].0@ == k {
            let j = choose|j: int| 0 <= j < args.len() && #[trigger] args[j].0@ == k;
            if j < args.len() - 1 {
                assert(args.drop_last()[j] == args[j]);
            }
        }
    }
}

/// The context that `render_html` hands to the template.
pub fn render_context(args: &[(&str, &str)]) -> (ctx: tera::Context)
    ensures
        context_text(ctx) == pairs_map(args@),
        context_lists(ctx) == empty_lists(),
{
    let mut context = new_context();
    let mut i: usize = 0;
    while i < args.len()
        invariant
            i <= args@.len(),
            context_text(context) == pairs_map(args@.subrange(0, i as int)),
            context_lists(context) == empty_lists(),
        decreases args@.len() - i,
    {
        let (key, val) = args[i];
        context_insert_text(&mut context, key, val);
        assert(args@.subrange(0, i + 1).drop_last() =~= args@.subrange(0, i as int));
        i = i + 1;
    }
    assert(args@.subrange(0, args@.len() as int) =~= args@);
    context
}

/// Renders `template_name` with the string values of `args` in its context
/// (the last value given for a key wins); fails when no template of that
/// name is loaded.
pub fn render_html(tera: &tera::Tera, args: &[(&str, &str)], template_name: String) -> (r: Result<
    String,
    tera::Error,
>)
    ensures
        r matches Ok(h) ==> renders_to(
            *tera,
            template_name@,
            pairs_map(args@),
            empty_lists(),
            h@,
        ),
        !tera_template_names(*tera).contains(template_name@) ==> r is Err,
{
    let context = render_context(args);
    tera_render(tera, template_name.as_str(), &context)
}

/// The context of `render_multiple_msg`: `messages` bound to the list.
pub open spec fn messages_lists(messages: Seq<String>) -> Map<Seq<char>, Seq<Seq<char>>> {
    empty_lists().insert("messages"@, views(messages))
}

/// The context of a page with flash messages binds the list `messages`, and
/// nothing else, to the messages given, each in its place and none left out.
pub proof fn messages_lists_binds_messages(messages: Seq<String>)
    ensures
        messages_lists(messages).dom() == set!["messages"@],
        messages_lists(messages)["messages"@].len() == messages.len(),
        forall|i: int|
            0 <= i < messages.len() ==> #[trigger] messages_lists(messages)["messages"@][i]
                == messages[i]@,
{
    assert(messages_lists(messages).dom() =~= set!["messages"@]);
}

/// Renders `template_name` with `args` as the list `messages` in its
/// context; fails when no template of that name is loaded.
pub fn render_multiple_msg(tera: &tera::Tera, args: Vec<String>, template_name: String) -> (r:
    Result<String, tera::Error>)
    ensures
        r matches Ok(h) ==> renders_to(
            *tera,
            template_name@,
            empty_text(),
            messages_lists(args@),
            h@,
        ),
        !tera_template_names(*tera).contains(template_name@) ==> r is Err,
{
    let context = messages_context(&args);
    tera_render(tera, template_name.as_str(), &context)
}

/// The context that `render_multiple_msg` hands to the template.
pub fn messages_context(args: &Vec<String>) -> (ctx: tera::Context)
    ensures
        context_lists(ctx) == messages_lists(args@),
        context_text(ctx) == empty_text(),
{
    let mut context = new_context();
    context_insert_list(&mut context, "messages", args);
    assert(empty_text().remove("messages"@) =~= empty_text());
    context
}

/// What a handler answers.
#[derive(Debug, PartialEq, Eq)]
pub enum Reply {
    /// 200 with an HTML body.
    Html(String),
    /// 200 with an empty body.
    Success,
    /// 303 to the given location.
    SeeOther(String),
    /// 500 with an empty body.
    InternalError,
    /// 500 carrying the given message as its error.
    InternalErrorMessage(String),
}

/// The reply of a page whose HTML was rendered with `rendered`: the page on
/// success, an empty 500 on a rendering error.
pub open spec fn page_reply_spec(rendered: Result<String, tera::Error>) -> Reply {
    match rendered {
        Ok(html) => Reply::Html(html),
        Err(_) => Reply::InternalError,
    }
}

/// The reply for a page given the result of rendering it.
pub fn page_reply(rendered: Result<String, tera::Error>) -> (r: Reply)
    ensures
        r == page_reply_spec(rendered),
{
    match rendered {
        Ok(html) => Reply::Html(html),
        Err(_) => Reply::InternalError,
    }
}

/// The lines that describe the causes of an error, one per cause.
pub open spec fn cause_lines(causes: Seq<Seq<char>>) -> Seq<char>
    decreases causes.len(),
{
    if causes.len() == 0 {
        Seq::empty()
    } else {
        cause_lines(causes.drop_last()) + "Caused by:\n\t"@ + causes.last() + "\n"@
    }
}

/// The text of an error followed by its chain of causes.
pub open spec fn error_chain_text(error: Seq<char>, causes: Seq<Seq<char>>) -> Seq<char> {
    error + "\n\n"@ + cause_lines(causes)
}

/// Writes `error`, a blank line, then one `Caused by:` entry per cause,
/// outermost first.
pub fn error_chain_fmt(error: &str, causes: &Vec<String>) -> (r: String)
    ensures
        r@ == error_chain_text(error@, causes@.map_values(|s: String| s@)),
{
    let ghost views = causes@.map_values(|s: String| s@);
    let mut out = String::from_str(error);
    out.append("\n\n");
    let mut i: usize = 0;
    while i < causes.len()
        invariant
            i <= causes@.len(),
            views == causes@.map_values(|s: String| s@),
            out@ == error@ + "\n\n"@ + cause_lines(views.subrange(0, i as int)),
        decreases causes@.len() - i,
    {
        out.append("Caused by:\n\t");
        out.append(causes[i].as_str());
        out.append("\n");
        assert(views.subrange(0, i + 1).drop_last() =~= views.subrange(0, i as int));
        i = i + 1;
    }
    assert(views.subrange(0, causes@.len() as int) =~= views);
    out
}

/// Whether `t` is the report of some chain of error messages, outermost
/// first: the first message followed by the others as its causes.
pub open spec fn is_chain_report(t: Seq<char>) -> bool {
    exists|messages: Seq<Seq<char>>|
        messages.len() >= 1 && t == #[trigger] error_chain_text(
            messages[0],
            messages.drop_first(),
        )
}

/// The views of a list of strings.
pub open spec fn views(v: Seq<String>) -> Seq<Seq<char>> {
    v.map_values(|s: String| s@)
}

/// The report of an error chain given as its messages, outermost first:
/// the first message followed by the others as its causes.
pub fn chain_report(messages: &Vec<String>) -> (r: String)
    requires
        messages@.len() >= 1,
    ensures
        r@ == error_chain_text(messages@[0]@, views(messages@).drop_first()),
        is_chain_report(r@),
{
    let mut causes: Vec<String> = Vec::new();
    let mut i: usize = 1;
    while i < messages.len()
        invariant
            1 <= i <= messages@.len(),
            views(causes@) == views(messages@).subrange(1, i as int),
        decreases messages@.len() - i,
    {
        let ghost before = causes@;
        let m = messages[i].clone();
        causes.push(m);
        assert(causes@ == before.push(messages@[i as int]));
        assert(views(causes@) =~= views(before).push(messages@[i as int]@));
        assert(views(causes@) =~= views(messages@).subrange(1, i + 1));
        i = i + 1;
    }
    assert(views(messages@).subrange(1, messages@.len() as int) =~= views(messages@).drop_first());
    let r = error_chain_fmt(messages[0].as_str(), &causes);
    assert(views(messages@)[0] == messages@[0]@);
    assert(r@ == error_chain_text(views(messages@)[0], views(messages@).drop_first()));
    r
}

} // verus!
