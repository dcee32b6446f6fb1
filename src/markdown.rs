//! Telegram MarkdownV2 text: escaping, links and joined lists.

use vstd::prelude::*;
use vstd::string::*;

verus! {

/// Characters that MarkdownV2 treats as markup.
pub open spec fn md_special(c: char) -> bool {
    c == '_' || c == '*' || c == '[' || c == ']' || c == '(' || c == ')' || c == '~' || c == '`' || c
        == '>' || c == '#' || c == '+' || c == '-' || c == '=' || c == '|' || c == '{' || c == '}'
        || c == '.' || c == '!'
}

/// `s` with a backslash put before each markup character.
pub open spec fn md_escape(s: Seq<char>) -> Seq<char>
    decreases s.len(),
{
    if s.len() == 0 {
        s
    } else if md_special(s.last()) {
        md_escape(s.drop_last()) + seq!['\\', s.last()]
    } else {
        md_escape(s.drop_last()).push(s.last())
    }
}

/// `s` with a backslash put before each `` ` `` and `)`, as a link target needs.
pub open spec fn link_url_escape(s: Seq<char>) -> Seq<char>
    decreases s.len(),
{
    if s.len() == 0 {
        s
    } else if s.last() == '`' || s.last() == ')' {
        link_url_escape(s.drop_last()) + seq!['\\', s.last()]
    } else {
        link_url_escape(s.drop_last()).push(s.last())
    }
}

/// An inline link: `[text](url)` with the url escaped.
pub open spec fn md_link(url: Seq<char>, text: Seq<char>) -> Seq<char> {
    seq!['['] + text + seq![']', '('] + link_url_escape(url) + seq![')']
}

/// `parts` joined with `sep` between each two.
pub open spec fn join_with(parts: Seq<Seq<char>>, sep: Seq<char>) -> Seq<char>
    decreases parts.len(),
{
    if parts.len() == 0 {
        Seq::empty()
    } else if parts.len() == 1 {
        parts[0]
    } else {
        join_with(parts.drop_last(), sep) + sep + parts.last()
    }
}

/// Relies on `teloxide::utils::markdown::escape`, which puts a backslash before
/// each of `_*[]()~`>#+-=|{}.!` and keeps every other character.
#[verifier::external_body]
pub(crate) fn escape(s: &str) -> (r: String)
    ensures
        r@ == md_escape(s@),
{
    teloxide::utils::markdown::escape(s)
}

/// Relies on `teloxide::utils::markdown::escape_link_url`, which puts a
/// backslash before each `` ` `` and `)`.
#[verifier::external_body]
pub(crate) fn escape_link_url(s: &str) -> (r: String)
    ensures
        r@ == link_url_escape(s@),
{
    teloxide::utils::markdown::escape_link_url(s)
}

/// Relies on `teloxide::utils::markdown::link`, which writes `[text](url)`
/// with the url passed through `escape_link_url`.
#[verifier::external_body]
pub(crate) fn link(url: &str, text: &str) -> (r: String)
    ensures
        r@ == md_link(url@, text@),
{
    teloxide::utils::markdown::link(url, text)
}

/// `s` with a backslash put before each `\` and `` ` ``, as a code block needs.
pub open spec fn code_escape(s: Seq<char>) -> Seq<char>
    decreases s.len(),
{
    if s.len() == 0 {
        s
    } else if s.last() == '\\' || s.last() == '`' {
        code_escape(s.drop_last()) + seq!['\\', s.last()]
    } else {
        code_escape(s.drop_last()).push(s.last())
    }
}

/// Relies on `teloxide::utils::markdown::code_block`, which writes the code
/// between lines of three backticks, with a backslash put before each `\`
/// and `` ` `` in it.
#[verifier::external_body]
pub(crate) fn code_block(code: &str) -> (r: String)
    ensures
        r@ == "```\n"@ + code_escape(code@) + "\n```"@,
{
    teloxide::utils::markdown::code_block(code)
}

/// The reply that shows a failed command's error chain to the user: the chain
/// in a code block.
pub fn error_reply(chain: &str) -> (r: String)
    ensures
        r@ == "```\n"@ + code_escape(chain@) + "\n```"@,
{
    code_block(chain)
}

/// Relies on `itertools::Itertools::join`, which writes the items with `sep`
/// between each two.
#[verifier::external_body]
pub(crate) fn join_items(items: &Vec<String>, sep: &str) -> (r: String)
    ensures
        r@ == join_with(items@.map_values(|x: String| x@), sep@),
{
    itertools::Itertools::join(&mut items.iter(), sep)
}

/// `parts` joined with `sep` between each two.
pub fn join_strings(parts: &Vec<String>, sep: &str) -> (r: String)
    ensures
        r@ == join_with(parts@.map_values(|x: String| x@), sep@),
{
    let ghost v = parts@.map_values(|x: String| x@);
    let mut r = String::new();
    let mut i: usize = 0;
    while i < parts.len()
        invariant
            i <= parts@.len(),
            v == parts@.map_values(|x: String| x@),
            r@ == join_with(v.subrange(0, i as int), sep@),
        decreases parts@.len() - i,
    {
        assert(v.subrange(0, i + 1).drop_last() =~= v.subrange(0, i as int));
        if i > 0 {
            r.append(sep);
        }
        r.append(parts[i].as_str());
        i = i + 1;
        proof {
            if i == 1 {
                assert(r@ =~= join_with(v.subrange(0, i as int), sep@));
            }
        }
    }
    assert(v.subrange(0, i as int) =~= v);
    r
}

} // verus!
