//! Who created a channel, kept in the channel's own access-control list.
//!
//! The creator is the one member whose entry grants the right to manage the
//! channel. Encoding writes that entry; decoding reads the list back and
//! never fails: a list that names nobody yields [`UNKNOWN_CREATOR`].

use serenity::model::Permissions;
use vstd::prelude::*;

verus! {

/// The creator of a channel whose access-control list names none.
pub const UNKNOWN_CREATOR: u64 = 0;

/// The right to manage a channel: the mark of its creator.
pub const MANAGE_CHANNELS: u64 = 0x10;

/// The right to see a channel.
pub const VIEW_CHANNEL: u64 = 0x400;

/// The right to post top-level messages in a channel.
pub const SEND_MESSAGES: u64 = 0x800;

/// The right to open public threads in a channel.
pub const CREATE_PUBLIC_THREADS: u64 = 0x8_0000_0000;

/// Whom an access-control entry is about.
#[derive(Clone, Copy, Debug, PartialEq, Eq, Structural)]
pub enum OverwriteTarget {
    /// One member, by user identifier.
    Member(u64),
    /// Everyone who holds a role, by role identifier.
    Role(u64),
}

/// One access-control entry of a channel: rights granted and rights denied
/// to a member or a role.
#[derive(Clone, Copy, Debug, PartialEq, Eq, Structural)]
pub struct Overwrite {
    pub allow: u64,
    pub deny: u64,
    pub target: OverwriteTarget,
}

/// The rights in `held` include every right in `wanted`.
pub open spec fn grants(held: u64, wanted: u64) -> bool {
    held & wanted == wanted
}

/// The entry is about one member and lets that member manage the channel.
pub open spec fn names_owner(entry: Overwrite) -> bool {
    entry.target is Member && grants(entry.allow, MANAGE_CHANNELS)
}

/// The identifier an entry is about.
pub open spec fn target_id(entry: Overwrite) -> u64 {
    match entry.target {
        OverwriteTarget::Member(id) => id,
        OverwriteTarget::Role(id) => id,
    }
}

/// The creator that an access-control list names: the member of the first
/// entry that names an owner, [`UNKNOWN_CREATOR`] where no entry does.
pub open spec fn owner_of(acl: Seq<Overwrite>) -> u64
    decreases acl.len(),
{
    if acl.len() == 0 {
        UNKNOWN_CREATOR
    } else if names_owner(acl[0]) {
        target_id(acl[0])
    } else {
        owner_of(acl.drop_first())
    }
}

/// What the creator of a channel is granted.
pub open spec fn creator_rights() -> u64 {
    VIEW_CHANNEL | SEND_MESSAGES | MANAGE_CHANNELS
}

/// What everyone else is granted: to read, and to take part in threads.
pub open spec fn visitor_rights() -> u64 {
    VIEW_CHANNEL | CREATE_PUBLIC_THREADS
}

/// The access-control list of a new channel made by `creator_id` in the
/// community `guild_id`, whose default role has the community's identifier.
pub open spec fn owner_acl(creator_id: u64, guild_id: u64) -> Seq<Overwrite> {
    seq![
        Overwrite {
            allow: creator_rights(),
            deny: 0,
            target: OverwriteTarget::Member(creator_id),
        },
        Overwrite {
            allow: visitor_rights(),
            deny: SEND_MESSAGES,
            target: OverwriteTarget::Role(guild_id),
        },
    ]
}

/// The bits of serenity's `Permissions::MANAGE_CHANNELS`, by
/// `Permissions::bits`. Trusted: the flag is bit 4 and no other.
#[verifier::external_body]
fn manage_channels() -> (bits: u64)
    ensures
        bits == MANAGE_CHANNELS,
{
    Permissions::MANAGE_CHANNELS.bits()
}

/// The bits of serenity's `Permissions::VIEW_CHANNEL`, by
/// `Permissions::bits`. Trusted: the flag is bit 10 and no other.
#[verifier::external_body]
fn view_channel() -> (bits: u64)
    ensures
        bits == VIEW_CHANNEL,
{
    Permissions::VIEW_CHANNEL.bits()
}

/// The bits of serenity's `Permissions::SEND_MESSAGES`, by
/// `Permissions::bits`. Trusted: the flag is bit 11 and no other.
#[verifier::external_body]
fn send_messages() -> (bits: u64)
    ensures
        bits == SEND_MESSAGES,
{
    Permissions::SEND_MESSAGES.bits()
}

/// The bits of serenity's `Permissions::CREATE_PUBLIC_THREADS`, by
/// `Permissions::bits`. Trusted: the flag is bit 35 and no other.
#[verifier::external_body]
fn create_public_threads() -> (bits: u64)
    ensures
        bits == CREATE_PUBLIC_THREADS,
{
    Permissions::CREATE_PUBLIC_THREADS.bits()
}

/// The bits of what serenity's `Permissions::empty` returns. Trusted: the
/// empty set of rights has no bit set.
#[verifier::external_body]
fn no_rights() -> (bits: u64)
    ensures
        bits == 0,
{
    Permissions::empty().bits()
}

/// Calls serenity's `Permissions::contains` on the sets of rights with the
/// bits `held` and `wanted`, made by `Permissions::from_bits_retain`, which
/// keeps every bit. Trusted: the answer is yes exactly if every bit of
/// `wanted` is set in `held`.
#[verifier::external_body]
fn includes(held: u64, wanted: u64) -> (all: bool)
    ensures
        all == grants(held, wanted),
{
    Permissions::from_bits_retain(held).contains(Permissions::from_bits_retain(wanted))
}

/// Calls serenity's `Permissions::union` on the sets of rights with the
/// bits `a` and `b`, made by `Permissions::from_bits_retain`, which keeps
/// every bit. Trusted: the union has exactly the bits set that either has.
#[verifier::external_body]
fn combined(a: u64, b: u64) -> (bits: u64)
    ensures
        bits == a | b,
{
    Permissions::from_bits_retain(a).union(Permissions::from_bits_retain(b)).bits()
}

/// Whether `entry` is about one member and lets that member manage the
/// channel.
pub fn marks_owner(entry: &Overwrite) -> (marked: bool)
    ensures
        marked == names_owner(*entry),
{
    match entry.target {
        OverwriteTarget::Member(_) => includes(entry.allow, manage_channels()),
        OverwriteTarget::Role(_) => false,
    }
}

/// The access-control list that records `creator_id` as the creator of a new
/// channel in the community `guild_id`: the creator may see, post in and
/// manage the channel; everyone else may see it and open threads, and may
/// not post top-level messages.
pub fn encode_owner(creator_id: u64, guild_id: u64) -> (acl: Vec<Overwrite>)
    ensures
        acl@ == owner_acl(creator_id, guild_id),
{
    let creator = Overwrite {
        allow: combined(combined(view_channel(), send_messages()), manage_channels()),
        deny: no_rights(),
        target: OverwriteTarget::Member(creator_id),
    };
    let everyone = Overwrite {
        allow: combined(view_channel(), create_public_threads()),
        deny: send_messages(),
        target: OverwriteTarget::Role(guild_id),
    };
    let mut acl: Vec<Overwrite> = Vec::new();
    acl.push(creator);
    acl.push(everyone);
    assert(acl@ =~= owner_acl(creator_id, guild_id));
    acl
}

/// The creator that the access-control list `acl` names: the member of the
/// first entry that is about one member and lets that member manage the
/// channel, or [`UNKNOWN_CREATOR`] if there is no such entry.
pub fn decode_owner(acl: &Vec<Overwrite>) -> (creator_id: u64)
    ensures
        creator_id == owner_of(acl@),
{
    let mut i: usize = 0;
    assert(acl@.skip(0) =~= acl@);
    while i < acl.len()
        invariant
            i <= acl.len(),
            owner_of(acl@) == owner_of(acl@.skip(i as int)),
        decreases acl.len() - i,
    {
        let entry = &acl[i];
        proof {
            let rest = acl@.skip(i as int);
            assert(rest[0] == acl@[i as int]);
            assert(rest.drop_first() =~= acl@.skip(i + 1));
        }
        if marks_owner(entry) {
            return match entry.target {
                OverwriteTarget::Member(id) => id,
                OverwriteTarget::Role(id) => id,
            };
        }
        i += 1;
    }
    assert(acl@.skip(i as int).len() == 0);
    UNKNOWN_CREATOR
}

/// Round trip: the list that [`encode_owner`] writes for a creator names
/// that creator, whatever the community.
pub proof fn lemma_owner_round_trip(creator_id: u64, guild_id: u64)
    ensures
        owner_of(owner_acl(creator_id, guild_id)) == creator_id,
{
    let acl = owner_acl(creator_id, guild_id);
    assert((0x400u64 | 0x800u64 | 0x10u64) & 0x10u64 == 0x10u64) by (bit_vector);
    assert(names_owner(acl[0]));
}

/// A list without an entry that names an owner yields the unknown creator.
pub proof fn lemma_no_owner_entry(acl: Seq<Overwrite>)
    requires
        forall|i: int| 0 <= i < acl.len() ==> !names_owner(#[trigger] acl[i]),
    ensures
        owner_of(acl) == UNKNOWN_CREATOR,
    decreases acl.len(),
{
    if acl.len() > 0 {
        let rest = acl.drop_first();
        assert forall|i: int| 0 <= i < rest.len() implies !names_owner(#[trigger] rest[i]) by {
            assert(rest[i] == acl[i + 1]);
        }
        lemma_no_owner_entry(rest);
    }
}

/// Where several entries name an owner the first one counts: a list names
/// the member of its entry `i` if that entry names an owner and none before
/// it does.
pub proof fn lemma_first_owner_entry(acl: Seq<Overwrite>, i: int)
    requires
        0 <= i < acl.len(),
        names_owner(acl[i]),
        forall|j: int| 0 <= j < i ==> !names_owner(#[trigger] acl[j]),
    ensures
        owner_of(acl) == target_id(acl[i]),
    decreases i,
{
    if i > 0 {
        let rest = acl.drop_first();
        assert(rest[i - 1] == acl[i]);
        assert forall|j: int| 0 <= j < i - 1 implies !names_owner(#[trigger] rest[j]) by {
            assert(rest[j] == acl[j + 1]);
        }
        lemma_first_owner_entry(rest, i - 1);
    }
}

} // verus!
