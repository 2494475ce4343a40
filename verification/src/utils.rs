//! The registry of managed channels, derived afresh from the platform's
//! channel directory whenever it is needed.
//!
//! A channel is managed if it is a text channel under the configured
//! category and is neither the log channel nor the list channel. Nothing
//! else marks it, and nothing is remembered between two readings.

use crate::config::Config;
use crate::embed::{list_line, send_list_embed, Embed, EmbedView, DEFAULT_COLOR};
use crate::error::PlatformError;
use crate::laws::lemma_one_entry_per_channel;
use crate::ownership::{decode_owner, encode_owner, owner_acl, owner_of, Overwrite};
use crate::sorting::{sort_by_name, sorted_by_name};
use vstd::prelude::*;
use vstd::string::StringExecFns;

verus! {

/// One managed channel, as the registry reports it.
#[derive(Debug, Clone, PartialEq, Eq)]
pub struct ChannelInfo {
    pub channel_id: u64,
    pub name: String,
    /// The creator, or [`crate::ownership::UNKNOWN_CREATOR`].
    pub creator_id: u64,
    pub description: Option<String>,
}

/// A registry entry as a mathematical value.
pub struct ChannelInfoView {
    pub channel_id: u64,
    pub name: Seq<char>,
    pub creator_id: u64,
    pub description: Option<Seq<char>>,
}

impl View for ChannelInfo {
    type V = ChannelInfoView;

    open spec fn view(&self) -> ChannelInfoView {
        ChannelInfoView {
            channel_id: self.channel_id,
            name: self.name@,
            creator_id: self.creator_id,
            description: match self.description {
                Some(text) => Some(text@),
                None => None,
            },
        }
    }
}

/// The entries of a list of registry entries as mathematical values.
pub open spec fn infos_view(entries: Seq<ChannelInfo>) -> Seq<ChannelInfoView> {
    entries.map_values(|entry: ChannelInfo| entry@)
}

/// The kinds of channel that the platform has.
#[derive(Clone, Copy, Debug, PartialEq, Eq, Structural)]
pub enum ChannelKind {
    Text,
    Voice,
    Category,
    News,
    Stage,
    Forum,
    Thread,
    Other,
}

/// One channel of a community, as the platform's directory shows it.
#[derive(Debug, Clone, PartialEq, Eq)]
pub struct ChannelRecord {
    pub id: u64,
    pub kind: ChannelKind,
    /// The category that the channel is under, if it is under one.
    pub parent_id: Option<u64>,
    pub name: String,
    pub topic: Option<String>,
    /// The channel's access-control list, in the platform's order.
    pub overwrites: Vec<Overwrite>,
}

/// What reading the platform's channel directory gave.
#[derive(Debug, Clone, PartialEq, Eq)]
pub enum Directory {
    /// The directory could not be read, and the platform said why.
    Unreadable(String),
    /// The configured category belongs to no community.
    Detached,
    /// Every channel of the community that owns the configured category, in
    /// whatever order the platform listed them. The platform keeps its
    /// channels by identifier, so a reading of it holds no identifier
    /// twice: see [`distinct_ids`].
    Community(Vec<ChannelRecord>),
}

/// A member of the community, as far as the registry looks at one.
#[derive(Debug, Clone, PartialEq, Eq)]
pub struct Member {
    pub user_id: u64,
    /// The roles that the member holds.
    pub roles: Vec<u64>,
}

/// A request to the platform to create a channel.
#[derive(Debug, Clone, PartialEq, Eq)]
pub struct ChannelRequest {
    /// The community to create the channel in.
    pub guild_id: u64,
    pub name: String,
    pub kind: ChannelKind,
    /// The category to put the channel under.
    pub category_id: u64,
    /// The access-control list of the new channel.
    pub permissions: Vec<Overwrite>,
}

/// A request to create a channel as a mathematical value.
pub struct ChannelRequestView {
    pub guild_id: u64,
    pub name: Seq<char>,
    pub kind: ChannelKind,
    pub category_id: u64,
    pub permissions: Seq<Overwrite>,
}

impl View for ChannelRequest {
    type V = ChannelRequestView;

    open spec fn view(&self) -> ChannelRequestView {
        ChannelRequestView {
            guild_id: self.guild_id,
            name: self.name@,
            kind: self.kind,
            category_id: self.category_id,
            permissions: self.permissions@,
        }
    }
}

/// The channel is managed: a text channel under the configured category
/// that is neither the log channel nor the list channel.
pub open spec fn is_managed(channel: ChannelRecord, config: Config) -> bool {
    &&& channel.kind == ChannelKind::Text
    &&& channel.parent_id == Some(config.category_id)
    &&& channel.id != config.log_channel_id
    &&& channel.id != config.list_channel_id
}

/// No identifier occurs twice among `channels`: each channel is listed
/// once.
pub open spec fn distinct_ids(channels: Seq<ChannelRecord>) -> bool {
    forall|i: int, j: int|
        0 <= i < channels.len() && 0 <= j < channels.len() && i != j ==> (#[trigger] channels[i]).id
            != (#[trigger] channels[j]).id
}

/// No two of `entries` are about the same channel.
pub open spec fn one_entry_per_channel(entries: Seq<ChannelInfoView>) -> bool {
    forall|i: int, j: int|
        0 <= i < entries.len() && 0 <= j < entries.len() && i != j ==> (
        #[trigger] entries[i]).channel_id != (#[trigger] entries[j]).channel_id
}

/// The reading lists each channel once, where it lists channels at all.
pub open spec fn lists_each_once(directory: Directory) -> bool {
    directory matches Directory::Community(channels) ==> distinct_ids(channels@)
}

/// The registry entry of a channel: its identifier and name, the creator
/// that its access-control list names, and its topic as the description.
pub open spec fn entry_of(channel: ChannelRecord) -> ChannelInfoView {
    ChannelInfoView {
        channel_id: channel.id,
        name: channel.name@,
        creator_id: owner_of(channel.overwrites@),
        description: match channel.topic {
            Some(text) => Some(text@),
            None => None,
        },
    }
}

/// [`is_managed`] under `config`, as a predicate on channels.
pub open spec fn managed_under(config: Config) -> spec_fn(ChannelRecord) -> bool {
    |channel: ChannelRecord| is_managed(channel, config)
}

/// The registry over the channels of a community: the entries of the
/// managed ones, in the order in which the channels were listed.
pub open spec fn registry(channels: Seq<ChannelRecord>, config: Config) -> Seq<ChannelInfoView> {
    channels.filter(managed_under(config)).map_values(|channel: ChannelRecord| entry_of(channel))
}

/// The registry that a reading of the directory gives: empty unless the
/// reading shows a community.
pub open spec fn discovered(directory: Directory, config: Config) -> Seq<ChannelInfoView> {
    match directory {
        Directory::Community(channels) => registry(channels@, config),
        _ => Seq::empty(),
    }
}

/// The notices of a list of notices as mathematical values.
pub open spec fn embeds_view(embeds: Seq<Embed>) -> Seq<EmbedView> {
    embeds.map_values(|embed: Embed| embed@)
}

/// The line of the public index for `entry`, as a notice for the list
/// channel.
pub open spec fn index_line(entry: ChannelInfoView, list_channel_id: u64) -> EmbedView {
    EmbedView {
        channel_id: list_channel_id,
        description: list_line(entry.channel_id, entry.description, entry.creator_id),
        color: DEFAULT_COLOR,
    }
}

/// One line of the public index for each of `entries`, in their order.
pub open spec fn index_lines(entries: Seq<ChannelInfoView>, list_channel_id: u64) -> Seq<
    EmbedView,
> {
    entries.map_values(|entry: ChannelInfoView| index_line(entry, list_channel_id))
}

/// The entries that the public index shows after a rebuild from the reading
/// `directory`: the registry, sorted by name.
pub open spec fn listed(directory: Directory, config: Config) -> Seq<ChannelInfoView> {
    sorted_by_name(discovered(directory, config))
}

/// The public index after a rebuild from the reading `directory`: one line
/// for each entry of the registry, sorted by name.
pub open spec fn list_snapshot(directory: Directory, config: Config) -> Seq<EmbedView> {
    index_lines(listed(directory, config), config.list_channel_id)
}

/// Some entry is about the channel `channel_id`.
pub open spec fn lists_channel(entries: Seq<ChannelInfoView>, channel_id: u64) -> bool {
    exists|i: int| 0 <= i < entries.len() && (#[trigger] entries[i]).channel_id == channel_id
}

/// The first entry about the channel `channel_id`, if there is one.
pub open spec fn entry_about(entries: Seq<ChannelInfoView>, channel_id: u64) -> Option<
    ChannelInfoView,
>
    decreases entries.len(),
{
    if entries.len() == 0 {
        None
    } else if entries[0].channel_id == channel_id {
        Some(entries[0])
    } else {
        entry_about(entries.drop_first(), channel_id)
    }
}

/// There is a first entry about a channel exactly if some entry is about
/// it, and that entry is about it.
pub proof fn lemma_entry_about(entries: Seq<ChannelInfoView>, channel_id: u64)
    ensures
        entry_about(entries, channel_id) is Some <==> lists_channel(entries, channel_id),
        entry_about(entries, channel_id) matches Some(entry) ==> entry.channel_id == channel_id
            && entries.contains(entry),
    decreases entries.len(),
{
    if entries.len() > 0 {
        let rest = entries.drop_first();
        lemma_entry_about(rest, channel_id);
        if entries[0].channel_id == channel_id {
            assert(entries[0].channel_id == channel_id);
        } else {
            if lists_channel(rest, channel_id) {
                let i = choose|i: int|
                    0 <= i < rest.len() && (#[trigger] rest[i]).channel_id == channel_id;
                assert(entries[i + 1] == rest[i]);
            }
            if lists_channel(entries, channel_id) {
                let i = choose|i: int|
                    0 <= i < entries.len() && (#[trigger] entries[i]).channel_id == channel_id;
                assert(rest[i - 1] == entries[i]);
            }
            if entry_about(rest, channel_id) is Some {
                let entry = entry_about(rest, channel_id)->0;
                let i = choose|i: int| 0 <= i < rest.len() && rest[i] == entry;
                assert(entries[i + 1] == entry);
            }
        }
    }
}

/// Adding a channel to the end of the directory adds its entry to the end of
/// the registry if the channel is managed, and changes nothing otherwise.
pub proof fn lemma_registry_push(channels: Seq<ChannelRecord>, channel: ChannelRecord, config: Config)
    ensures
        registry(channels.push(channel), config) == if is_managed(channel, config) {
            registry(channels, config).push(entry_of(channel))
        } else {
            registry(channels, config)
        },
{
    channels.lemma_filter_push(channel, managed_under(config));
    if is_managed(channel, config) {
        assert(registry(channels.push(channel), config) =~= registry(channels, config).push(
            entry_of(channel),
        ));
    }
}

/// Whether `channel` is managed under `config`.
pub fn manages(config: &Config, channel: &ChannelRecord) -> (managed: bool)
    requires
        config.names_channels(),
    ensures
        managed == is_managed(*channel, *config),
{
    let under_category = match channel.parent_id {
        Some(parent_id) => parent_id == config.category_id(),
        None => false,
    };
    channel.kind == ChannelKind::Text && under_category && channel.id != config.log_channel_id()
        && channel.id != config.list_channel_id()
}

/// The registry entry of `channel`.
pub fn describe(channel: &ChannelRecord) -> (entry: ChannelInfo)
    ensures
        entry@ == entry_of(*channel),
{
    let description = match &channel.topic {
        Some(text) => Some(text.clone()),
        None => None,
    };
    ChannelInfo {
        channel_id: channel.id,
        name: channel.name.clone(),
        creator_id: decode_owner(&channel.overwrites),
        description,
    }
}

/// The registry: one entry for each managed channel that the reading
/// `directory` shows, in the order of the reading, and so exactly one for
/// each where the reading lists each channel once. A category that belongs
/// to no community has no managed channels. Fails exactly when the
/// directory could not be read, with the platform's words. The category,
/// the log channel and the list channel must be configured.
pub fn get_managed_channels(directory: &Directory, config: &Config) -> (found: Result<
    Vec<ChannelInfo>,
    PlatformError,
>)
    requires
        config.names_channels(),
    ensures
        directory is Unreadable <==> found is Err,
        found matches Err(error) ==> error@ == directory->Unreadable_0@,
        found matches Ok(entries) ==> infos_view(entries@) == discovered(*directory, *config),
        found matches Ok(entries) ==> lists_each_once(*directory) ==> one_entry_per_channel(
            infos_view(entries@),
        ),
{
    proof {
        if lists_each_once(*directory) {
            lemma_one_entry_per_channel(*directory, *config);
        }
    }
    match directory {
        Directory::Unreadable(cause) => Err(PlatformError::new(cause.as_str())),
        Directory::Detached => {
            let entries: Vec<ChannelInfo> = Vec::new();
            assert(infos_view(entries@) =~= Seq::empty());
            Ok(entries)
        },
        Directory::Community(channels) => {
            let mut entries: Vec<ChannelInfo> = Vec::new();
            let mut i: usize = 0;
            proof {
                reveal(Seq::filter);
                assert(channels@.take(0) =~= Seq::empty());
                assert(infos_view(entries@) =~= registry(channels@.take(0), *config));
            }
            while i < channels.len()
                invariant
                    i <= channels.len(),
                    config.names_channels(),
                    infos_view(entries@) == registry(channels@.take(i as int), *config),
                decreases channels.len() - i,
            {
                let channel = &channels[i];
                proof {
                    lemma_registry_push(channels@.take(i as int), *channel, *config);
                    assert(channels@.take(i as int).push(*channel) =~= channels@.take(i + 1));
                }
                if manages(config, channel) {
                    let entry = describe(channel);
                    let ghost before = entries@;
                    entries.push(entry);
                    assert(infos_view(entries@) =~= infos_view(before).push(entry@));
                }
                i += 1;
            }
            assert(channels@.take(i as int) =~= channels@);
            Ok(entries)
        },
    }
}

/// Whether the channel `channel_id` is managed: whether the registry has an
/// entry for it. Fails exactly when the directory could not be read.
pub fn is_managed_channel(directory: &Directory, config: &Config, channel_id: u64) -> (answer:
    Result<bool, PlatformError>)
    requires
        config.names_channels(),
    ensures
        directory is Unreadable <==> answer is Err,
        answer matches Err(error) ==> error@ == directory->Unreadable_0@,
        answer matches Ok(managed) ==> managed == lists_channel(
            discovered(*directory, *config),
            channel_id,
        ),
{
    match get_managed_channels(directory, config) {
        Err(error) => Err(error),
        Ok(entries) => {
            let mut i: usize = 0;
            while i < entries.len()
                invariant
                    i <= entries.len(),
                    directory !is Unreadable,
                    infos_view(entries@) == discovered(*directory, *config),
                    forall|j: int| 0 <= j < i ==> (#[trigger] infos_view(entries@)[j]).channel_id != channel_id,
                decreases entries.len() - i,
            {
                if entries[i].channel_id == channel_id {
                    assert(infos_view(entries@)[i as int].channel_id == channel_id);
                    return Ok(true);
                }
                i += 1;
            }
            Ok(false)
        },
    }
}

/// The public index rebuilt from the reading `directory`: the notices to
/// post in the list channel, in this order, once every notice that was
/// there has been deleted. There is one line for each entry of the
/// registry, and the lines are sorted by the names of their channels. Fails
/// exactly when the directory could not be read, with the platform's words.
pub fn update_channel_list(directory: &Directory, config: &Config) -> (rebuilt: Result<
    Vec<Embed>,
    PlatformError,
>)
    requires
        config.names_channels(),
    ensures
        directory is Unreadable <==> rebuilt is Err,
        rebuilt matches Err(error) ==> error@ == directory->Unreadable_0@,
        rebuilt matches Ok(lines) ==> embeds_view(lines@) == list_snapshot(*directory, *config),
{
    match get_managed_channels(directory, config) {
        Err(error) => Err(error),
        Ok(found) => {
            let entries = sort_by_name(found);
            let list_channel_id = config.list_channel_id();
            let mut lines: Vec<Embed> = Vec::new();
            let mut i: usize = 0;
            assert(embeds_view(lines@) =~= index_lines(
                infos_view(entries@).take(0),
                list_channel_id,
            ));
            while i < entries.len()
                invariant
                    i <= entries.len(),
                    embeds_view(lines@) == index_lines(
                        infos_view(entries@).take(i as int),
                        list_channel_id,
                    ),
                decreases entries.len() - i,
            {
                let entry = &entries[i];
                let line = send_list_embed(
                    list_channel_id,
                    entry.channel_id,
                    entry.description.as_ref(),
                    entry.creator_id,
                );
                let ghost before = lines@;
                lines.push(line);
                proof {
                    assert(line@ == index_line(entry@, list_channel_id));
                    assert(infos_view(entries@).take(i + 1) =~= infos_view(entries@).take(
                        i as int,
                    ).push(entry@));
                    assert(embeds_view(lines@) =~= embeds_view(before).push(line@));
                    assert(embeds_view(lines@) =~= index_lines(
                        infos_view(entries@).take(i + 1),
                        list_channel_id,
                    ));
                }
                i += 1;
            }
            assert(infos_view(entries@).take(i as int) =~= infos_view(entries@));
            Ok(lines)
        },
    }
}

/// The first of `entries` that is about the channel `channel_id`, if there
/// is one.
pub fn find_channel(entries: &Vec<ChannelInfo>, channel_id: u64) -> (found: Option<&ChannelInfo>)
    ensures
        found is Some <==> entry_about(infos_view(entries@), channel_id) is Some,
        found matches Some(entry) ==> Some(entry@) == entry_about(
            infos_view(entries@),
            channel_id,
        ),
{
    let ghost all = infos_view(entries@);
    let mut i: usize = 0;
    assert(all.skip(0) =~= all);
    while i < entries.len()
        invariant
            i <= entries.len(),
            all == infos_view(entries@),
            entry_about(all, channel_id) == entry_about(all.skip(i as int), channel_id),
        decreases entries.len() - i,
    {
        assert(all.skip(i as int)[0] == entries@[i as int]@);
        assert(all.skip(i as int).drop_first() =~= all.skip(i + 1));
        if entries[i].channel_id == channel_id {
            return Some(&entries[i]);
        }
        i += 1;
    }
    None
}

/// Whether `roles` holds `role_id`.
pub fn holds_role(roles: &Vec<u64>, role_id: u64) -> (held: bool)
    ensures
        held == roles@.contains(role_id),
{
    let mut i: usize = 0;
    while i < roles.len()
        invariant
            i <= roles.len(),
            forall|j: int| 0 <= j < i ==> roles@[j] != role_id,
        decreases roles.len() - i,
    {
        if roles[i] == role_id {
            return true;
        }
        i += 1;
    }
    false
}

/// Whether `member` may provision, rename, redescribe and retire channels:
/// whether the member holds the configured special role. Holding the
/// manager role gives no such right.
pub fn has_special_role(member: &Member, config: &Config) -> (allowed: bool)
    requires
        config.special_role_id != 0,
    ensures
        allowed == member.roles@.contains(config.special_role_id),
{
    holds_role(&member.roles, config.special_role_id())
}

/// Whether `member` may force a rebuild of the public index: whether the
/// member holds the configured manager role. Holding the special role gives
/// no such right.
pub fn has_manager_role(member: &Member, config: &Config) -> (allowed: bool)
    requires
        config.manager_role_id != 0,
    ensures
        allowed == member.roles@.contains(config.manager_role_id),
{
    holds_role(&member.roles, config.manager_role_id())
}

/// The request that creates the text channel `name` under the configured
/// category of the community `guild_id`, with the access-control list that
/// records `creator_id` as its creator.
pub fn create_channel_with_permissions(
    config: &Config,
    name: &str,
    creator_id: u64,
    guild_id: u64,
) -> (request: ChannelRequest)
    requires
        config.category_id != 0,
    ensures
        request@ == (ChannelRequestView {
            guild_id,
            name: name@,
            kind: ChannelKind::Text,
            category_id: config.category_id,
            permissions: owner_acl(creator_id, guild_id),
        }),
{
    ChannelRequest {
        guild_id,
        name: String::from_str(name),
        kind: ChannelKind::Text,
        category_id: config.category_id(),
        permissions: encode_owner(creator_id, guild_id),
    }
}

} // verus!
