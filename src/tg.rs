//! The messaging platform's users, chats and updates as plain values, and how
//! they are named in logs and replies.

use vstd::prelude::*;
use vstd::string::*;

use crate::markdown::{escape, escape_link_url, link, link_url_escape, md_escape, md_link};
use crate::text::{decimal, decimal_string, signed_decimal, signed_decimal_string};

verus! {

/// A user of the messaging platform.
#[derive(Clone, Debug)]
pub struct User {
    pub id: u64,
    pub first_name: String,
    pub last_name: Option<String>,
    pub username: Option<String>,
}

/// A chat of the messaging platform.
#[derive(Clone, Debug)]
pub struct Chat {
    pub id: i64,
    /// Title of a group, supergroup or channel.
    pub title: Option<String>,
    pub username: Option<String>,
    /// Invite link of a group, supergroup or channel.
    pub invite_link: Option<String>,
}

/// Identifier of a message within its chat.
#[derive(Clone, Copy, Debug, PartialEq, Eq, Structural)]
pub struct MessageId(pub i32);

/// The kinds of update the bot can receive.
#[derive(Clone, Copy, Debug, PartialEq, Eq, Structural)]
pub enum UpdateKind {
    Message,
    EditedMessage,
    ChannelPost,
    EditedChannelPost,
    InlineQuery,
    ChosenInlineResult,
    CallbackQuery,
    ShippingQuery,
    PreCheckoutQuery,
    Poll,
    PollAnswer,
    MyChatMember,
    ChatMember,
    ChatJoinRequest,
    Error,
}

/// How text taken from a chat is escaped before it is shown.
#[derive(Clone, Copy, Debug, PartialEq, Eq, Structural)]
pub enum TextEscape {
    /// Shown as it is.
    Plain,
    /// Escaped for MarkdownV2.
    Markdown,
}

/// A user's first name, then their last name after a space when they have one.
pub open spec fn full_name_of(u: User) -> Seq<char> {
    match u.last_name {
        Some(l) => u.first_name@ + " "@ + l@,
        None => u.first_name@,
    }
}

/// A user's username, or their full name when they have none.
pub open spec fn username_of(u: User) -> Seq<char> {
    match u.username {
        Some(n) => n@,
        None => full_name_of(u),
    }
}

/// The link that opens a user's profile.
pub open spec fn user_url_of(id: u64) -> Seq<char> {
    "tg://user/?id="@ + decimal(id as nat)
}

/// `s` as the given escaping shows it.
pub open spec fn escaped(e: TextEscape, s: Seq<char>) -> Seq<char> {
    match e {
        TextEscape::Plain => s,
        TextEscape::Markdown => md_escape(s),
    }
}

/// A chat's title, or a stand-in when it has none.
pub open spec fn chat_title_of(c: Chat) -> Seq<char> {
    match c.title {
        Some(t) => t@,
        None => "{{unknown_chat_title}}"@,
    }
}

/// `(<username>, <id>)`, without the username part when the chat has none.
pub open spec fn chat_suffix_of(c: Chat) -> Seq<char> {
    "("@ + match c.username {
        Some(n) => n@ + ", "@,
        None => Seq::empty(),
    } + signed_decimal(c.id as int) + ")"@
}

/// How a chat is named: its title and suffix, escaped, with the title linked
/// to the chat's invite link when it has one.
pub open spec fn chat_debug_id_of(c: Chat, e: TextEscape) -> Seq<char> {
    let title = escaped(e, chat_title_of(c));
    let suffix = escaped(e, chat_suffix_of(c));
    match c.invite_link {
        Some(l) => "["@ + title + "]("@ + link_url_escape(l@) + ") "@ + suffix,
        None => title + " "@ + suffix,
    }
}

/// The name of an update kind.
pub open spec fn discriminator_of(k: UpdateKind) -> Seq<char> {
    match k {
        UpdateKind::Message => "Message"@,
        UpdateKind::EditedMessage => "EditedMessage"@,
        UpdateKind::ChannelPost => "ChannelPost"@,
        UpdateKind::EditedChannelPost => "EditedChannelPost"@,
        UpdateKind::InlineQuery => "InlineQuery"@,
        UpdateKind::ChosenInlineResult => "ChosenInlineResult"@,
        UpdateKind::CallbackQuery => "CallbackQuery"@,
        UpdateKind::ShippingQuery => "ShippingQuery"@,
        UpdateKind::PreCheckoutQuery => "PreCheckoutQuery"@,
        UpdateKind::Poll => "Poll"@,
        UpdateKind::PollAnswer => "PollAnswer"@,
        UpdateKind::MyChatMember => "MyChatMember"@,
        UpdateKind::ChatMember => "ChatMember"@,
        UpdateKind::ChatJoinRequest => "ChatJoinRequest"@,
        UpdateKind::Error => "Error"@,
    }
}

/// Relies on `teloxide::types::UserId::url`, which parses
/// `tg://user/?id=<id>` as a URL; the URL's text is that string unchanged.
#[verifier::external_body]
fn user_url(id: u64) -> (r: String)
    ensures
        r@ == user_url_of(id),
{
    teloxide::types::UserId(id).url().as_str().to_owned()
}

/// The text as it is.
pub fn no_escape(s: &str) -> (r: String)
    ensures
        r@ == s@,
{
    String::from_str(s)
}

impl TextEscape {
    /// `s` as this escaping shows it.
    pub fn apply(&self, s: &str) -> (r: String)
        ensures
            r@ == escaped(*self, s@),
    {
        match self {
            TextEscape::Plain => no_escape(s),
            TextEscape::Markdown => escape(s),
        }
    }
}

impl User {
    /// The first name, then the last name after a space when there is one.
    pub fn full_name(&self) -> (r: String)
        ensures
            r@ == full_name_of(*self),
    {
        match &self.last_name {
            Some(l) => {
                let mut r = self.first_name.clone();
                r.append(" ");
                r.append(l.as_str());
                r
            },
            None => self.first_name.clone(),
        }
    }

    /// The username, or the full name when there is none.
    pub fn username(&self) -> (r: String)
        ensures
            r@ == username_of(*self),
    {
        match &self.username {
            Some(n) => n.clone(),
            None => self.full_name(),
        }
    }

    /// A MarkdownV2 mention: the escaped username linked to the profile.
    pub fn md_link(&self) -> (r: String)
        ensures
            r@ == md_link(user_url_of(self.id), md_escape(username_of(*self))),
    {
        let text = escape(self.username().as_str());
        link(user_url(self.id).as_str(), text.as_str())
    }

    /// `<username> (<id>)`, for logs.
    pub fn debug_id(&self) -> (r: String)
        ensures
            r@ == username_of(*self) + " ("@ + decimal(self.id as nat) + ")"@,
    {
        let mut r = self.username();
        r.append(" (");
        r.append(decimal_string(self.id).as_str());
        r.append(")");
        r
    }
}

/// How a chat is named, with its text escaped as `escape` says.
pub fn chat_debug_id_imp(chat: &Chat, escape: TextEscape) -> (r: String)
    ensures
        r@ == chat_debug_id_of(*chat, escape),
{
    let title = match &chat.title {
        Some(t) => escape.apply(t.as_str()),
        None => escape.apply("{{unknown_chat_title}}"),
    };
    let mut inner = String::from_str("(");
    match &chat.username {
        Some(n) => {
            inner.append(n.as_str());
            inner.append(", ");
        },
        None => {},
    }
    inner.append(signed_decimal_string(chat.id).as_str());
    inner.append(")");
    assert(inner@ =~= chat_suffix_of(*chat));
    let suffix = escape.apply(inner.as_str());
    match &chat.invite_link {
        Some(l) => {
            let mut r = String::from_str("[");
            r.append(title.as_str());
            r.append("](");
            r.append(escape_link_url(l.as_str()).as_str());
            r.append(") ");
            r.append(suffix.as_str());
            assert(r@ =~= chat_debug_id_of(*chat, escape));
            r
        },
        None => {
            let mut r = title;
            r.append(" ");
            r.append(suffix.as_str());
            assert(r@ =~= chat_debug_id_of(*chat, escape));
            r
        },
    }
}

impl Chat {
    /// How the chat is named in logs.
    pub fn debug_id(&self) -> (r: String)
        ensures
            r@ == chat_debug_id_of(*self, TextEscape::Plain),
    {
        chat_debug_id_imp(self, TextEscape::Plain)
    }

    /// How the chat is named in MarkdownV2 replies.
    pub fn debug_id_markdown_escaped(&self) -> (r: String)
        ensures
            r@ == chat_debug_id_of(*self, TextEscape::Markdown),
    {
        chat_debug_id_imp(self, TextEscape::Markdown)
    }
}

impl MessageId {
    /// The id as the value logged for it.
    pub fn to_tracing(&self) -> (r: i32)
        ensures
            r == self.0,
    {
        self.0
    }
}

impl UpdateKind {
    /// The name of the update kind.
    pub fn discriminator(&self) -> (r: &'static str)
        ensures
            r@ == discriminator_of(*self),
    {
        match self {
            UpdateKind::Message => "Message",
            UpdateKind::EditedMessage => "EditedMessage",
            UpdateKind::ChannelPost => "ChannelPost",
            UpdateKind::EditedChannelPost => "EditedChannelPost",
            UpdateKind::InlineQuery => "InlineQuery",
            UpdateKind::ChosenInlineResult => "ChosenInlineResult",
            UpdateKind::CallbackQuery => "CallbackQuery",
            UpdateKind::ShippingQuery => "ShippingQuery",
            UpdateKind::PreCheckoutQuery => "PreCheckoutQuery",
            UpdateKind::Poll => "Poll",
            UpdateKind::PollAnswer => "PollAnswer",
            UpdateKind::MyChatMember => "MyChatMember",
            UpdateKind::ChatMember => "ChatMember",
            UpdateKind::ChatJoinRequest => "ChatJoinRequest",
            UpdateKind::Error => "Error",
        }
    }
}

} // verus!
