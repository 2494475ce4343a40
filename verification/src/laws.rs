//! What holds of the registry and of the public index whatever the
//! platform's directory holds.

use crate::commands::{
    failure, postings, role_for, transition_of, ActionView, Command, Event, Invocation, Stage,
    StageView, StepView,
};
use crate::config::Config;
use crate::lexical::name_le;
use crate::sorting::{
    distinct_names, is_sorted, lemma_distinct_names_named, lemma_sorted_by_name_any_order,
    lemma_sorted_by_name_permutes, lemma_sorted_by_name_sorted, named,
};
use crate::ownership::{lemma_owner_round_trip, owner_acl};
use crate::utils::{
    discovered, distinct_ids, entry_of, index_line, is_managed, lemma_entry_about,
    lemma_registry_push, list_snapshot, listed, lists_channel, lists_each_once, managed_under,
    one_entry_per_channel, registry, ChannelInfoView, ChannelKind, ChannelRecord, Directory,
};
use vstd::prelude::*;

verus! {

/// The registry holds an entry exactly if it is the entry of a managed
/// channel of the directory: every text channel under the configured
/// category other than the log and the list channel is in it, and nothing
/// else.
pub proof fn lemma_registry_exact(
    channels: Seq<ChannelRecord>,
    config: Config,
    entry: ChannelInfoView,
)
    ensures
        registry(channels, config).contains(entry) <==> exists|i: int|
            0 <= i < channels.len() && is_managed(#[trigger] channels[i], config) && entry_of(
                channels[i],
            ) == entry,
    decreases channels.len(),
{
    if channels.len() == 0 {
        reveal(Seq::filter);
        assert(registry(channels, config) =~= Seq::empty());
    } else {
        let init = channels.drop_last();
        let last = channels.last();
        assert(init.push(last) =~= channels);
        lemma_registry_push(init, last, config);
        lemma_registry_exact(init, config, entry);
        let before = registry(init, config);
        let all = registry(channels, config);
        if all.contains(entry) {
            let k = choose|k: int| 0 <= k < all.len() && all[k] == entry;
            if k < before.len() {
                assert(before[k] == entry);
                assert(before.contains(entry));
                let i = choose|i: int|
                    0 <= i < init.len() && is_managed(#[trigger] init[i], config) && entry_of(
                        init[i],
                    ) == entry;
                assert(channels[i] == init[i]);
            } else {
                assert(is_managed(channels[channels.len() - 1], config));
            }
        }
        if exists|i: int|
            0 <= i < channels.len() && is_managed(#[trigger] channels[i], config) && entry_of(
                channels[i],
            ) == entry {
            let i = choose|i: int|
                0 <= i < channels.len() && is_managed(#[trigger] channels[i], config) && entry_of(
                    channels[i],
                ) == entry;
            if i < init.len() {
                assert(init[i] == channels[i]);
                assert(before.contains(entry));
                let k = choose|k: int| 0 <= k < before.len() && before[k] == entry;
                assert(all[k] == entry);
            } else {
                assert(all[all.len() - 1] == entry);
            }
        }
    }
}

/// The registry has an entry about a channel exactly if the directory
/// lists a managed channel of that identifier.
pub proof fn lemma_registry_lists_managed_channels(
    channels: Seq<ChannelRecord>,
    config: Config,
    channel_id: u64,
)
    ensures
        lists_channel(registry(channels, config), channel_id) <==> exists|i: int|
            0 <= i < channels.len() && (#[trigger] channels[i]).id == channel_id && is_managed(
                channels[i],
                config,
            ),
{
    let found = registry(channels, config);
    if lists_channel(found, channel_id) {
        let k = choose|k: int| 0 <= k < found.len() && (#[trigger] found[k]).channel_id == channel_id;
        assert(found.contains(found[k]));
        lemma_registry_exact(channels, config, found[k]);
        let i = choose|i: int|
            0 <= i < channels.len() && is_managed(#[trigger] channels[i], config) && entry_of(
                channels[i],
            ) == found[k];
        assert(channels[i].id == channel_id);
    }
    if exists|i: int|
        0 <= i < channels.len() && (#[trigger] channels[i]).id == channel_id && is_managed(
            channels[i],
            config,
        ) {
        let i = choose|i: int|
            0 <= i < channels.len() && (#[trigger] channels[i]).id == channel_id && is_managed(
                channels[i],
                config,
            );
        lemma_registry_exact(channels, config, entry_of(channels[i]));
        let entry = entry_of(channels[i]);
        assert(found.contains(entry));
        let k = choose|k: int| 0 <= k < found.len() && found[k] == entry;
        assert(found[k].channel_id == channel_id);
    }
}

/// Where the directory lists each channel once, the registry has one entry
/// for each managed channel and no more: no two of its entries are about
/// the same channel.
pub proof fn lemma_registry_one_entry_per_channel(channels: Seq<ChannelRecord>, config: Config)
    requires
        distinct_ids(channels),
    ensures
        one_entry_per_channel(registry(channels, config)),
    decreases channels.len(),
{
    if channels.len() == 0 {
        reveal(Seq::filter);
        assert(registry(channels, config) =~= Seq::empty());
    } else {
        let init = channels.drop_last();
        let last = channels.last();
        assert(init.push(last) =~= channels);
        assert forall|i: int, j: int|
            0 <= i < init.len() && 0 <= j < init.len() && i != j implies (#[trigger] init[i]).id != (
        #[trigger] init[j]).id by {
            assert(init[i] == channels[i] && init[j] == channels[j]);
        }
        lemma_registry_one_entry_per_channel(init, config);
        lemma_registry_push(init, last, config);
        let before = registry(init, config);
        let all = registry(channels, config);
        assert forall|k: int| 0 <= k < before.len() implies (#[trigger] before[k]).channel_id
            != last.id by {
            assert(before.contains(before[k]));
            lemma_registry_exact(init, config, before[k]);
            let m = choose|m: int|
                0 <= m < init.len() && is_managed(#[trigger] init[m], config) && entry_of(init[m])
                    == before[k];
            assert(init[m] == channels[m]);
            assert(channels[channels.len() - 1] == last);
        }
        assert forall|i: int, j: int|
            0 <= i < all.len() && 0 <= j < all.len() && i != j implies (#[trigger] all[i]).channel_id
            != (#[trigger] all[j]).channel_id by {
            if i < before.len() {
                assert(all[i] == before[i]);
            }
            if j < before.len() {
                assert(all[j] == before[j]);
            }
        }
    }
}

/// Entries about different channels are still about different channels in
/// another order.
pub proof fn lemma_one_entry_per_channel_any_order(
    first: Seq<ChannelInfoView>,
    second: Seq<ChannelInfoView>,
)
    requires
        one_entry_per_channel(first),
        first.to_multiset() == second.to_multiset(),
    ensures
        one_entry_per_channel(second),
{
    broadcast use vstd::multiset::group_multiset_axioms;

    first.to_multiset_ensures();
    second.to_multiset_ensures();
    assert(first.no_duplicates());
    first.lemma_multiset_has_no_duplicates();
    second.lemma_multiset_has_no_duplicates_conv();
    assert forall|i: int, j: int|
        0 <= i < second.len() && 0 <= j < second.len() && i != j implies (
    #[trigger] second[i]).channel_id != (#[trigger] second[j]).channel_id by {
        assert(second.contains(second[i]));
        assert(second.contains(second[j]));
        assert(second.to_multiset().count(second[i]) > 0);
        assert(second.to_multiset().count(second[j]) > 0);
        assert(first.contains(second[i]));
        assert(first.contains(second[j]));
        let p = choose|p: int| 0 <= p < first.len() && first[p] == second[i];
        let q = choose|q: int| 0 <= q < first.len() && first[q] == second[j];
        assert(second[i] != second[j]);
        assert(p != q);
        assert(first[p].channel_id != first[q].channel_id);
    }
}

/// Where the reading lists each channel once, the registry and the public
/// index after a rebuild hold exactly one entry for each managed channel:
/// no two entries of the registry, and no two lines of the index, are about
/// the same channel, and the index has as many lines as the registry has
/// entries.
pub proof fn lemma_one_entry_per_channel(directory: Directory, config: Config)
    requires
        lists_each_once(directory),
    ensures
        one_entry_per_channel(discovered(directory, config)),
        one_entry_per_channel(listed(directory, config)),
        list_snapshot(directory, config).len() == discovered(directory, config).len(),
{
    if directory is Community {
        lemma_registry_one_entry_per_channel(directory->Community_0@, config);
    }
    lemma_sorted_by_name_permutes(discovered(directory, config));
    lemma_one_entry_per_channel_any_order(
        discovered(directory, config),
        listed(directory, config),
    );
}

/// A channel that the directory does not hold has no entry in the
/// registry, and no line in the index.
pub proof fn lemma_absent_channel_is_not_listed(
    directory: Directory,
    config: Config,
    channel_id: u64,
)
    requires
        directory matches Directory::Community(channels) ==> forall|i: int|
            0 <= i < channels@.len() ==> (#[trigger] channels@[i]).id != channel_id,
    ensures
        !lists_channel(discovered(directory, config), channel_id),
        !lists_channel(listed(directory, config), channel_id),
{
    let found = discovered(directory, config);
    if lists_channel(found, channel_id) {
        let k = choose|k: int| 0 <= k < found.len() && (#[trigger] found[k]).channel_id == channel_id;
        assert(found.contains(found[k]));
        lemma_registry_exact(directory->Community_0@, config, found[k]);
    }
    let shown = listed(directory, config);
    if lists_channel(shown, channel_id) {
        let k = choose|k: int| 0 <= k < shown.len() && (#[trigger] shown[k]).channel_id == channel_id;
        lemma_sorted_by_name_permutes(found);
        shown.to_multiset_ensures();
        found.to_multiset_ensures();
        assert(shown.contains(shown[k]));
        assert(shown.to_multiset().count(shown[k]) > 0);
        assert(found.contains(shown[k]));
        let j = choose|j: int| 0 <= j < found.len() && found[j] == shown[k];
        assert(found[j].channel_id == channel_id);
    }
}

/// A channel that the platform made as it was asked to is managed, and the
/// registry names as its creator whoever asked for it: a text channel under
/// the configured category, with the access-control list that was written
/// for `creator_id`, that is neither the log channel nor the list channel.
pub proof fn lemma_provisioned_channel_is_managed(
    channel: ChannelRecord,
    config: Config,
    creator_id: u64,
    guild_id: u64,
)
    requires
        channel.kind == ChannelKind::Text,
        channel.parent_id == Some(config.category_id),
        channel.overwrites@ == owner_acl(creator_id, guild_id),
        channel.id != config.log_channel_id,
        channel.id != config.list_channel_id,
    ensures
        is_managed(channel, config),
        entry_of(channel).creator_id == creator_id,
        entry_of(channel).channel_id == channel.id,
        entry_of(channel).name == channel.name@,
{
    lemma_owner_round_trip(creator_id, guild_id);
}

/// Renaming and redescribing leave a channel where it is in the life of a
/// managed channel: whether a channel is managed, and who created it, hangs
/// on neither its name nor its topic, and the entry of the channel follows
/// both.
pub proof fn lemma_name_and_topic_do_not_unmanage(
    before: ChannelRecord,
    after: ChannelRecord,
    config: Config,
)
    requires
        after.id == before.id,
        after.kind == before.kind,
        after.parent_id == before.parent_id,
        after.overwrites@ == before.overwrites@,
    ensures
        is_managed(after, config) == is_managed(before, config),
        entry_of(after).channel_id == entry_of(before).channel_id,
        entry_of(after).creator_id == entry_of(before).creator_id,
        entry_of(after).name == after.name@,
        entry_of(after).description == match after.topic {
            Some(text) => Some(text@),
            None => None,
        },
{
}

/// The registry over two directories laid end to end is the registry over
/// the first followed by the registry over the second.
pub proof fn lemma_registry_concat(
    first: Seq<ChannelRecord>,
    second: Seq<ChannelRecord>,
    config: Config,
)
    ensures
        registry(first + second, config) == registry(first, config) + registry(second, config),
{
    Seq::filter_distributes_over_add(first, second, managed_under(config));
    assert(registry(first + second, config) =~= registry(first, config) + registry(
        second,
        config,
    ));
}

/// Listing one more channel anywhere in the directory adds its entry to the
/// registry if the channel is managed, and nothing otherwise.
proof fn lemma_registry_insert(
    channels: Seq<ChannelRecord>,
    at: int,
    channel: ChannelRecord,
    config: Config,
)
    requires
        0 <= at <= channels.len(),
    ensures
        registry(channels.insert(at, channel), config).to_multiset() == if is_managed(
            channel,
            config,
        ) {
            registry(channels, config).to_multiset().insert(entry_of(channel))
        } else {
            registry(channels, config).to_multiset()
        },
{
    broadcast use vstd::multiset::group_multiset_axioms;

    let head = channels.take(at);
    let tail = channels.skip(at);
    assert(channels =~= head + tail);
    assert(channels.insert(at, channel) =~= head.push(channel) + tail);
    lemma_registry_concat(head, tail, config);
    lemma_registry_concat(head.push(channel), tail, config);
    lemma_registry_push(head, channel, config);
    let h = registry(head, config);
    let t = registry(tail, config);
    vstd::seq_lib::lemma_multiset_commutative(h, t);
    if is_managed(channel, config) {
        let e = entry_of(channel);
        vstd::seq_lib::lemma_multiset_commutative(h.push(e), t);
        vstd::seq_lib::to_multiset_build(h, e);
        assert(h.to_multiset().insert(e).add(t.to_multiset()) =~= h.to_multiset().add(
            t.to_multiset(),
        ).insert(e));
    }
}

/// The registry does not depend on the order in which the platform lists
/// the channels: two directories that hold the same channels give
/// registries that hold the same entries, each as often.
pub proof fn lemma_registry_any_order(
    first: Seq<ChannelRecord>,
    second: Seq<ChannelRecord>,
    config: Config,
)
    requires
        first.to_multiset() == second.to_multiset(),
    ensures
        registry(first, config).to_multiset() == registry(second, config).to_multiset(),
        registry(first, config).len() == registry(second, config).len(),
    decreases first.len(),
{
    broadcast use vstd::multiset::group_multiset_axioms;

    first.to_multiset_ensures();
    second.to_multiset_ensures();
    if first.len() == 0 {
        assert(second.len() == 0);
        assert(first =~= second);
    } else {
        let init = first.drop_last();
        let last = first.last();
        assert(init.push(last) =~= first);
        assert(first.contains(last)) by {
            assert(first[first.len() - 1] == last);
        }
        assert(first.to_multiset().count(last) > 0);
        assert(second.to_multiset().count(last) > 0);
        assert(second.contains(last));
        let at = choose|at: int| 0 <= at < second.len() && second[at] == last;
        let rest = second.remove(at);
        assert(rest.insert(at, last) =~= second);
        init.to_multiset_ensures();
        assert(init.to_multiset() =~= first.to_multiset().remove(last));
        assert(rest.to_multiset() =~= second.to_multiset().remove(last));
        lemma_registry_any_order(init, rest, config);
        lemma_registry_push(init, last, config);
        lemma_registry_insert(rest, at, last, config);
        if is_managed(last, config) {
            vstd::seq_lib::to_multiset_build(registry(init, config), entry_of(last));
        }
    }
    registry(first, config).to_multiset_ensures();
    registry(second, config).to_multiset_ensures();
}

/// After a rebuild the public index is sorted: of two of its lines the
/// earlier is about a channel whose name is not after that of the later.
/// And it is complete: it has one line for each entry of the registry, and
/// the entries that its lines are about are those of the registry, each as
/// often.
pub proof fn lemma_index_sorted_and_complete(directory: Directory, config: Config)
    ensures
        is_sorted(listed(directory, config)),
        forall|i: int, j: int|
            0 <= i < j < list_snapshot(directory, config).len() ==> name_le(
                (#[trigger] listed(directory, config)[i]).name,
                (#[trigger] listed(directory, config)[j]).name,
            ),
        list_snapshot(directory, config).len() == discovered(directory, config).len(),
        forall|i: int|
            0 <= i < list_snapshot(directory, config).len() ==> #[trigger] list_snapshot(
                directory,
                config,
            )[i] == index_line(listed(directory, config)[i], config.list_channel_id),
        listed(directory, config).to_multiset() == discovered(directory, config).to_multiset(),
{
    lemma_sorted_by_name_sorted(discovered(directory, config));
    lemma_sorted_by_name_permutes(discovered(directory, config));
}

/// Two rebuilds with nothing changed in between show the same channels: if
/// two readings of the directory hold the same channels, in whatever order,
/// the two indexes are about the same entries, each as often, and both are
/// sorted by name.
pub proof fn lemma_rebuild_same_content(first: Directory, second: Directory, config: Config)
    requires
        first is Community,
        second is Community,
        first->Community_0@.to_multiset() == second->Community_0@.to_multiset(),
    ensures
        listed(first, config).to_multiset() == listed(second, config).to_multiset(),
        list_snapshot(first, config).len() == list_snapshot(second, config).len(),
        is_sorted(listed(first, config)),
        is_sorted(listed(second, config)),
{
    lemma_registry_any_order(first->Community_0@, second->Community_0@, config);
    lemma_index_sorted_and_complete(first, config);
    lemma_index_sorted_and_complete(second, config);
}

/// Two rebuilds with nothing changed in between give the same index, line
/// for line, provided that the platform listed the channels of one name in
/// the same order both times: the index keeps channels of one name in the
/// order of the reading, so where that order differs the two indexes differ
/// in the same way.
pub proof fn lemma_rebuild_repeatable(first: Directory, second: Directory, config: Config)
    requires
        discovered(first, config).to_multiset() == discovered(second, config).to_multiset(),
        forall|name: Seq<char>| #[trigger]
            named(discovered(first, config), name) == named(discovered(second, config), name),
    ensures
        list_snapshot(first, config) == list_snapshot(second, config),
{
    lemma_sorted_by_name_any_order(discovered(first, config), discovered(second, config));
}

/// Two rebuilds with nothing changed in between give the same index, line
/// for line, in whatever order the platform listed the channels, provided
/// that no two managed channels have the same name.
pub proof fn lemma_rebuild_repeatable_with_distinct_names(
    first: Directory,
    second: Directory,
    config: Config,
)
    requires
        first is Community,
        second is Community,
        first->Community_0@.to_multiset() == second->Community_0@.to_multiset(),
        distinct_names(discovered(first, config)),
    ensures
        list_snapshot(first, config) == list_snapshot(second, config),
{
    lemma_registry_any_order(first->Community_0@, second->Community_0@, config);
    assert forall|name: Seq<char>| #[trigger]
        named(discovered(first, config), name) == named(discovered(second, config), name) by {
        lemma_distinct_names_named(
            discovered(first, config),
            discovered(second, config),
            name,
        );
    }
    lemma_rebuild_repeatable(first, second, config);
}

/// The call changes a channel: it creates, renames, redescribes or deletes
/// one.
pub open spec fn changes_channel(action: ActionView) -> bool {
    action is CreateChannel || action is RenameChannel || action is SetTopic
        || action is DeleteChannel
}

/// The step ends the action by telling the invoker something, and does
/// nothing else: no channel is changed, the index is not rebuilt, and the
/// log hears nothing.
pub open spec fn is_refusal(step: StepView) -> bool {
    &&& step.next == StageView::Finished
    &&& step.failure is None
    &&& step.actions.len() == 1
    &&& step.actions[0] is Respond
}

/// The action is at a stage at which it waits for an answer of the
/// platform.
pub open spec fn waits_at(command: Command, stage: Stage) -> bool {
    match stage {
        Stage::Invoked => false,
        Stage::Checking => command == Command::Rename || command == Command::Description
            || command == Command::Delete,
        Stage::Creating => command == Command::Create,
        Stage::Rebuilding(_) => command != Command::Delete,
        Stage::Retiring { .. } => command == Command::Delete,
        Stage::Finished => true,
    }
}

/// The action is at the stage at which the index is rebuilt.
pub open spec fn rebuilds_at(command: Command, stage: Stage) -> bool {
    if command == Command::Delete {
        stage is Retiring
    } else {
        stage is Rebuilding
    }
}

/// Nobody acts without the role that the command asks for,
/// whatever other role they hold: a member without it is refused at the
/// first step.
pub proof fn lemma_role_is_required(
    command: Command,
    event: Event,
    invocation: Invocation,
    config: Config,
)
    requires
        invocation.member is Some,
        !invocation.member->0.roles@.contains(role_for(command, config)),
        command == Command::Create ==> invocation.guild_id is Some,
    ensures
        is_refusal(transition_of(command, Stage::Invoked, event, invocation, config)),
{
}

/// A channel that is not managed is never changed: where the directory
/// shows that the channel of the invocation is not in the registry, an
/// action on that channel ends with a refusal.
pub proof fn lemma_unmanaged_channel_is_refused(
    command: Command,
    directory: Directory,
    invocation: Invocation,
    config: Config,
)
    requires
        command == Command::Rename || command == Command::Description || command
            == Command::Delete,
        directory !is Unreadable,
        !lists_channel(discovered(directory, config), invocation.channel_id),
    ensures
        is_refusal(
            transition_of(command, Stage::Checking, Event::Directory(directory), invocation, config),
        ),
{
    lemma_entry_about(discovered(directory, config), invocation.channel_id);
}

/// A failed call ends the action at once: nothing is tried again, no
/// further call is made, and so the log hears nothing. Where the action was
/// waiting for an answer, the failure carries the platform's words.
pub proof fn lemma_failure_ends_action(
    command: Command,
    stage: Stage,
    cause: String,
    invocation: Invocation,
    config: Config,
)
    requires
        stage != Stage::Invoked,
    ensures
        transition_of(command, stage, Event::Failed(cause), invocation, config).next
            == StageView::Finished,
        transition_of(command, stage, Event::Failed(cause), invocation, config).actions.len() == 0,
        transition_of(command, stage, Event::Failed(cause), invocation, config).failure is Some,
        waits_at(command, stage) ==> transition_of(
            command,
            stage,
            Event::Failed(cause),
            invocation,
            config,
        ) == failure(cause@),
{
}

/// Within a step, whatever changes a channel comes before the rebuild of
/// the index, so that the directory is read after the change; the
/// directory is read only once the old index is gone; and a step that
/// changes a channel posts no notice, so that neither the index nor the
/// log says anything of a change before the platform has made it.
pub proof fn lemma_change_precedes_rebuild(
    command: Command,
    stage: Stage,
    event: Event,
    invocation: Invocation,
    config: Config,
    i: int,
    j: int,
)
    requires
        0 <= i < transition_of(command, stage, event, invocation, config).actions.len(),
        0 <= j < transition_of(command, stage, event, invocation, config).actions.len(),
    ensures
        ({
            let actions = transition_of(command, stage, event, invocation, config).actions;
            &&& changes_channel(actions[i]) && (actions[j] is ClearList || actions[j]
                is ReadDirectory) ==> i < j
            &&& actions[i] is ClearList && actions[j] is ReadDirectory ==> i < j
            &&& changes_channel(actions[i]) ==> !(actions[j] is Send)
        }),
{
}

/// The step that ends a rebuild posts the index, then tells the log, then
/// the invoker, and changes no channel: its first calls post the lines of
/// the index, one call a line, in the order of the index; the one call
/// after them posts a notice in the log channel; and whatever follows
/// replaces the answer that the invoker got.
pub proof fn lemma_rebuild_then_log(
    command: Command,
    stage: Stage,
    directory: Directory,
    invocation: Invocation,
    config: Config,
)
    requires
        rebuilds_at(command, stage),
        directory !is Unreadable,
    ensures
        ({
            let step = transition_of(
                command,
                stage,
                Event::Directory(directory),
                invocation,
                config,
            );
            let lines = list_snapshot(directory, config);
            &&& step.next == StageView::Finished
            &&& step.failure is None
            &&& step.actions.len() > lines.len()
            &&& step.actions.take(lines.len() as int) == postings(lines)
            &&& step.actions[lines.len() as int] matches ActionView::Send(notice)
                && notice.channel_id == config.log_channel_id
            &&& forall|i: int|
                lines.len() < i < step.actions.len() ==> #[trigger] step.actions[i]
                    is EditResponse
            &&& forall|i: int|
                0 <= i < step.actions.len() ==> !changes_channel(#[trigger] step.actions[i])
        }),
{
    let step = transition_of(command, stage, Event::Directory(directory), invocation, config);
    let lines = list_snapshot(directory, config);
    assert(step.actions.take(lines.len() as int) =~= postings(lines));
}

} // verus!
