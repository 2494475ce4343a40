//! The notices that the registry posts: one line of the public index per
//! managed channel, and one line in the log per successful action.

use crate::decimal::{decimal, push_decimal};
use vstd::prelude::*;
use vstd::string::StringExecFns;

verus! {

/// The colour of a notice that names none.
pub const DEFAULT_COLOR: u32 = 5814783;

/// The colours of the notices.
#[derive(Clone, Copy, Debug, PartialEq, Eq, Structural)]
pub enum EmbedColor {
    Blue,
    Green,
    Red,
    Yellow,
}

impl EmbedColor {
    /// The colour as the platform's number: red, green and blue, one byte
    /// each.
    pub open spec fn rgb(self) -> u32 {
        match self {
            EmbedColor::Blue => 5814783,
            EmbedColor::Green => 3066993,
            EmbedColor::Red => 15158332,
            EmbedColor::Yellow => 16776960,
        }
    }

    /// The colour as the platform's number.
    pub fn value(&self) -> (number: u32)
        ensures
            number == self.rgb(),
    {
        match self {
            EmbedColor::Blue => 5814783,
            EmbedColor::Green => 3066993,
            EmbedColor::Red => 15158332,
            EmbedColor::Yellow => 16776960,
        }
    }
}

/// A notice ready to be posted: where it goes, what it says, and its colour.
/// The time of posting is stamped on it by whoever posts it.
#[derive(Debug, Clone, PartialEq, Eq)]
pub struct Embed {
    pub channel_id: u64,
    pub description: String,
    pub color: u32,
}

/// A notice as a mathematical value.
pub struct EmbedView {
    pub channel_id: u64,
    pub description: Seq<char>,
    pub color: u32,
}

impl View for Embed {
    type V = EmbedView;

    open spec fn view(&self) -> EmbedView {
        EmbedView {
            channel_id: self.channel_id,
            description: self.description@,
            color: self.color,
        }
    }
}

impl Embed {
    /// A second notice that says the same.
    pub fn duplicate(&self) -> (copy: Embed)
        ensures
            copy@ == self@,
    {
        Embed {
            channel_id: self.channel_id,
            description: self.description.clone(),
            color: self.color,
        }
    }
}

/// A reference to the channel `id` that the platform shows as a link.
pub open spec fn channel_mention(id: u64) -> Seq<char> {
    seq!['<', '#'] + decimal(id as nat) + seq!['>']
}

/// A reference to the user `id` that the platform shows as a name.
pub open spec fn user_mention(id: u64) -> Seq<char> {
    seq!['<', '@'] + decimal(id as nat) + seq!['>']
}

/// The words that attribute a notice to the user `id`.
pub open spec fn by_user(id: u64) -> Seq<char> {
    seq![' ', 'b', 'y', ' '] + user_mention(id)
}

/// The description clause of a line of the index: empty where the channel
/// has no description.
pub open spec fn description_clause(description: Option<Seq<char>>) -> Seq<char> {
    match description {
        Some(text) => seq![' ', '-', ' '] + text,
        None => Seq::empty(),
    }
}

/// The line of the public index for one channel: the channel, its
/// description if it has one, and its creator.
pub open spec fn list_line(
    channel_id: u64,
    description: Option<Seq<char>>,
    creator_id: u64,
) -> Seq<char> {
    channel_mention(channel_id) + description_clause(description) + by_user(creator_id)
}

/// The line of the log for one action: what was done, by whom, and to which
/// channel if the channel still exists.
pub open spec fn action_line(action: Seq<char>, user_id: u64, subject: Option<u64>) -> Seq<char> {
    match subject {
        Some(id) => channel_mention(id) + seq![' '] + action + by_user(user_id),
        None => action + by_user(user_id) + seq!['\n'],
    }
}

/// The notice for the log channel `channel_id` that the user `user_id` did
/// `action`, to the channel `subject` where there is one to refer to.
pub open spec fn action_notice(
    channel_id: u64,
    action: Seq<char>,
    user_id: u64,
    color: EmbedColor,
    subject: Option<u64>,
) -> EmbedView {
    EmbedView {
        channel_id,
        description: action_line(action, user_id, subject),
        color: color.rgb(),
    }
}

/// The view of an optional string.
pub open spec fn optional_text(text: Option<&String>) -> Option<Seq<char>> {
    match text {
        Some(words) => Some(words@),
        None => None,
    }
}

/// Appends a reference to the channel `id` to `text`.
pub fn push_channel_mention(text: &mut String, id: u64)
    ensures
        final(text)@ == old(text)@ + channel_mention(id),
{
    proof {
        reveal_strlit("<#");
        reveal_strlit(">");
    }
    text.append("<#");
    push_decimal(text, id);
    text.append(">");
    assert("<#"@ =~= seq!['<', '#']);
    assert(">"@ =~= seq!['>']);
    assert(text@ =~= old(text)@ + channel_mention(id));
}

fn push_by_user(text: &mut String, id: u64)
    ensures
        final(text)@ == old(text)@ + by_user(id),
{
    proof {
        reveal_strlit(" by <@");
        reveal_strlit(">");
    }
    text.append(" by <@");
    push_decimal(text, id);
    text.append(">");
    assert(" by <@"@ =~= seq![' ', 'b', 'y', ' '] + seq!['<', '@']);
    assert(">"@ =~= seq!['>']);
    assert(text@ =~= old(text)@ + by_user(id));
}

/// The notice for the log channel `channel_id` that says `description`, in
/// `color` or, where none is given, in [`DEFAULT_COLOR`].
pub fn send_log_embed(channel_id: u64, description: &str, color: Option<u32>) -> (embed: Embed)
    ensures
        embed@ == (EmbedView {
            channel_id,
            description: description@,
            color: match color {
                Some(number) => number,
                None => DEFAULT_COLOR,
            },
        }),
{
    let number = match color {
        Some(number) => number,
        None => DEFAULT_COLOR,
    };
    Embed { channel_id, description: String::from_str(description), color: number }
}

/// The notice for the log channel `channel_id` that the user `user_id` did
/// `action`, to the channel `subject` where there is one to refer to.
pub fn send_action_embed(
    channel_id: u64,
    action: &str,
    user_id: u64,
    color: EmbedColor,
    subject: Option<u64>,
) -> (embed: Embed)
    ensures
        embed@ == action_notice(channel_id, action@, user_id, color, subject),
{
    let mut text = String::new();
    match subject {
        Some(id) => {
            proof {
                reveal_strlit(" ");
            }
            push_channel_mention(&mut text, id);
            text.append(" ");
            text.append(action);
            push_by_user(&mut text, user_id);
            assert(" "@ =~= seq![' ']);
            assert(text@ =~= action_line(action@, user_id, subject));
        },
        None => {
            proof {
                reveal_strlit("\n");
            }
            text.append(action);
            push_by_user(&mut text, user_id);
            text.append("\n");
            assert("\n"@ =~= seq!['\n']);
            assert(text@ =~= action_line(action@, user_id, subject));
        },
    }
    send_log_embed(channel_id, text.as_str(), Some(color.value()))
}

/// The line of the public index, for the list channel `list_channel_id`,
/// that shows the channel `channel_id` with its description, if it has one,
/// and its creator.
pub fn send_list_embed(
    list_channel_id: u64,
    channel_id: u64,
    description: Option<&String>,
    creator_id: u64,
) -> (embed: Embed)
    ensures
        embed@ == (EmbedView {
            channel_id: list_channel_id,
            description: list_line(channel_id, optional_text(description), creator_id),
            color: DEFAULT_COLOR,
        }),
{
    let mut text = String::new();
    push_channel_mention(&mut text, channel_id);
    match description {
        Some(words) => {
            proof {
                reveal_strlit(" - ");
            }
            text.append(" - ");
            text.append(words.as_str());
            assert(" - "@ =~= seq![' ', '-', ' ']);
        },
        None => {},
    }
    assert(text@ =~= channel_mention(channel_id) + description_clause(
        optional_text(description),
    ));
    push_by_user(&mut text, creator_id);
    Embed { channel_id: list_channel_id, description: text, color: DEFAULT_COLOR }
}

} // verus!
