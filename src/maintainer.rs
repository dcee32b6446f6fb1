//! Texts of the bot maintainer's commands: the build metadata table and the
//! list of users awaiting verification.

use vstd::prelude::*;
use vstd::string::*;

use crate::markdown::{escape, join_items, join_with, md_escape};
use crate::tg::{username_of, User};
use crate::text::decimal;

verus! {

/// Name for what `str::to_lowercase` returns.
pub uninterp spec fn lower_of(s: Seq<char>) -> Seq<char>;

/// Relies on `str::to_lowercase`, whose result depends on the characters alone.
#[verifier::external_body]
fn to_lowercase(s: &str) -> (r: String)
    ensures
        r@ == lower_of(s@),
{
    s.to_lowercase()
}

/// `n` spaces.
pub open spec fn spaces(n: nat) -> Seq<char> {
    Seq::new(n, |i: int| ' ')
}

/// `s` padded with spaces on the right to `width` characters.
pub open spec fn pad_right(s: Seq<char>, width: nat) -> Seq<char> {
    if s.len() < width {
        s + spaces((width - s.len()) as nat)
    } else {
        s
    }
}

/// The largest number of characters among the names of `meta`.
pub open spec fn max_name_len(meta: Seq<(String, String)>) -> nat
    decreases meta.len(),
{
    if meta.len() == 0 {
        0
    } else {
        let rest = max_name_len(meta.drop_last());
        let n = meta.last().0@.len();
        if n > rest {
            n
        } else {
            rest
        }
    }
}

/// One metadata line: the lowercased name padded to `width`, ` = `, the value,
/// all escaped.
pub open spec fn meta_line(name: Seq<char>, value: Seq<char>, width: nat) -> Seq<char> {
    md_escape(pad_right(lower_of(name), width) + " = "@ + value)
}

/// The metadata table: one line per entry, names aligned, in a code block.
pub open spec fn version_table_of(meta: Seq<(String, String)>) -> Seq<char> {
    let width = max_name_len(meta);
    "```\n"@ + join_with(
        Seq::new(meta.len(), |i: int| meta_line(meta[i].0@, meta[i].1@, width)),
        "\n"@,
    ) + "\n```"@
}

fn pad(s: String, width: usize) -> (r: String)
    ensures
        r@ == pad_right(s@, width as nat),
{
    let n = s.as_str().unicode_len();
    let mut r = s;
    if n < width {
        let mut k: usize = n;
        while k < width
            invariant
                n <= k <= width,
                n == s@.len(),
                r@ == s@ + spaces((k - n) as nat),
            decreases width - k,
        {
            r.append(" ");
            proof {
                reveal_strlit(" ");
                assert(r@ =~= s@ + spaces((k + 1 - n) as nat));
            }
            k = k + 1;
        }
    }
    r
}

/// The build metadata as a MarkdownV2 code block: each name lowercased and
/// padded to the longest name, then ` = ` and its value, escaped, one per line.
pub fn version_table(meta: &Vec<(String, String)>) -> (r: String)
    ensures
        r@ == version_table_of(meta@),
{
    let mut width: usize = 0;
    let mut i: usize = 0;
    while i < meta.len()
        invariant
            i <= meta@.len(),
            width == max_name_len(meta@.subrange(0, i as int)),
        decreases meta@.len() - i,
    {
        assert(meta@.subrange(0, i + 1).drop_last() =~= meta@.subrange(0, i as int));
        let n = meta[i].0.as_str().unicode_len();
        if n > width {
            width = n;
        }
        i = i + 1;
    }
    assert(meta@.subrange(0, i as int) =~= meta@);
    let ghost lines = Seq::new(meta@.len(), |i: int| meta_line(meta@[i].0@, meta@[i].1@, width as nat));
    let mut out: Vec<String> = Vec::new();
    let mut j: usize = 0;
    while j < meta.len()
        invariant
            j <= meta@.len(),
            width == max_name_len(meta@),
            lines == Seq::new(meta@.len(), |i: int| meta_line(meta@[i].0@, meta@[i].1@, width as nat)),
            out@.len() == j,
            forall|t: int| 0 <= t < j ==> (#[trigger] out@[t])@ == lines[t],
        decreases meta@.len() - j,
    {
        let mut kv = pad(to_lowercase(meta[j].0.as_str()), width);
        kv.append(" = ");
        kv.append(meta[j].1.as_str());
        out.push(escape(kv.as_str()));
        j = j + 1;
    }
    assert(out@.map_values(|x: String| x@) =~= lines);
    let mut r = String::from_str("```\n");
    r.append(join_items(&out, "\n").as_str());
    r.append("\n```");
    r
}

/// Whether a message's sender is the bot's maintainer.
pub fn is_maintainer(sender: Option<u64>, maintainer: u64) -> (r: bool)
    ensures
        r == (sender == Some(maintainer)),
{
    match sender {
        Some(id) => id == maintainer,
        None => false,
    }
}

/// The named chat of `chat_id` in `chats`, the first entry with that id.
pub open spec fn chat_name_in(chats: Seq<(i64, String)>, chat_id: i64) -> Seq<char>
    decreases chats.len(),
{
    if chats.len() == 0 {
        Seq::empty()
    } else if chats[0].0 == chat_id {
        chats[0].1@
    } else {
        chat_name_in(chats.drop_first(), chat_id)
    }
}

/// Whether `chats` names the chat `chat_id`.
pub open spec fn names_chat(chats: Seq<(i64, String)>, chat_id: i64) -> bool {
    exists|k: int| 0 <= k < chats.len() && (#[trigger] chats[k]).0 == chat_id
}

/// One line of the unverified-users report: the user, a pointer, the chat.
pub open spec fn unverified_line_of(user: User, chat: Seq<char>) -> Seq<char> {
    username_of(user) + " ("@ + decimal(user.id as nat) + ")"@ + " 👉 "@ + chat
}

/// The report of users awaiting verification, one line per entry.
pub open spec fn unverified_report_of(entries: Seq<(i64, User)>, chats: Seq<(i64, String)>) -> Seq<char> {
    join_with(
        Seq::new(entries.len(), |i: int| unverified_line_of(entries[i].1, chat_name_in(chats, entries[i].0))),
        "\n"@,
    )
}

fn chat_name(chats: &Vec<(i64, String)>, chat_id: i64) -> (r: String)
    ensures
        r@ == chat_name_in(chats@, chat_id),
{
    let mut k: usize = 0;
    assert(chats@.subrange(0, chats@.len() as int) =~= chats@);
    while k < chats.len()
        invariant
            k <= chats@.len(),
            chat_name_in(chats@, chat_id) == chat_name_in(chats@.subrange(k as int, chats@.len() as int), chat_id),
        decreases chats@.len() - k,
    {
        assert(chats@.subrange(k as int, chats@.len() as int).drop_first() =~= chats@.subrange(
            k + 1,
            chats@.len() as int,
        ));
        if chats[k].0 == chat_id {
            return chats[k].1.clone();
        }
        k = k + 1;
    }
    String::new()
}

/// The report of users awaiting verification: for each `(chat id, user)`
/// entry, the user's debug id, ` 👉 ` and the name that `chats` gives the chat,
/// one entry per line. Every chat of `entries` is named in `chats`.
pub fn unverified_report(entries: &Vec<(i64, User)>, chats: &Vec<(i64, String)>) -> (r: String)
    requires
        forall|i: int| 0 <= i < entries@.len() ==> names_chat(chats@, (#[trigger] entries@[i]).0),
    ensures
        r@ == unverified_report_of(entries@, chats@),
{
    let ghost lines = Seq::new(
        entries@.len(),
        |i: int| unverified_line_of(entries@[i].1, chat_name_in(chats@, entries@[i].0)),
    );
    let mut out: Vec<String> = Vec::new();
    let mut j: usize = 0;
    while j < entries.len()
        invariant
            j <= entries@.len(),
            lines == Seq::new(
                entries@.len(),
                |i: int| unverified_line_of(entries@[i].1, chat_name_in(chats@, entries@[i].0)),
            ),
            out@.len() == j,
            forall|t: int| 0 <= t < j ==> (#[trigger] out@[t])@ == lines[t],
        decreases entries@.len() - j,
    {
        let mut line = entries[j].1.debug_id();
        line.append(" 👉 ");
        line.append(chat_name(chats, entries[j].0).as_str());
        out.push(line);
        j = j + 1;
    }
    assert(out@.map_values(|x: String| x@) =~= lines);
    join_items(&out, "\n")
}

} // verus!
