//! Retire: a member deletes a managed channel for good.

use crate::commands::{
    actions_view, admission, authorize, conclude, conclusion, end, ending, fail, failure,
    out_of_turn, push_rebuild, reading_failure, rebuild_calls, refusal, refuse, serves, Action,
    ActionView, Command, CommandSpec, CommandSpecView, Event, Invocation, Stage, StageView,
    Step, StepView,
};
use crate::config::Config;
use crate::embed::{action_notice, send_action_embed, EmbedColor};
use crate::utils::{discovered, entry_about, find_channel, get_managed_channels, Directory};
use vstd::prelude::*;
use vstd::string::StringExecFns;

verus! {

/// The command as it is registered: `delete`, without options.
pub open spec fn registration() -> CommandSpecView {
    CommandSpecView { name: "delete"@, description: "Delete the channel."@, option: None }
}

/// The command as it is registered with the platform.
pub fn register() -> (command: CommandSpec)
    ensures
        command@ == registration(),
{
    CommandSpec {
        name: String::from_str("delete"),
        description: String::from_str("Delete the channel."),
        option: None,
    }
}

/// What the log says was done to the channel `name`.
pub open spec fn deed(name: Seq<char>) -> Seq<char> {
    seq!['['] + name + "] deleted"@
}

/// The step once the directory has been read. A channel that is not
/// managed is left alone: the invoker is told, and no call changes
/// anything. Else the invoker is told that work has begun, the channel is
/// deleted, and the index is rebuilt. The name that the channel had is kept
/// for the log, which hears of the deletion only once it has happened.
pub open spec fn verdict(directory: Directory, invocation: Invocation, config: Config) -> StepView {
    match entry_about(discovered(directory, config), invocation.channel_id) {
        None => refusal("This channel was not created by the bot and cannot be deleted!"@),
        Some(entry) => StepView {
            next: StageView::Retiring { channel_id: invocation.channel_id, name: entry.name },
            actions: seq![
                ActionView::Respond("Deleting channel..."@),
                ActionView::DeleteChannel { channel_id: invocation.channel_id },
            ] + rebuild_calls(config),
            failure: None,
        },
    }
}

/// The step of retiring from `stage` on the answer `event`.
///
/// The invoker must hold the special role, and the channel in which the
/// command was invoked must be managed. Once the channel is deleted and the
/// directory has been read again the new index is posted; the channel is
/// gone from the directory, and so from the index. Then the log is told
/// that the invoker deleted the channel of that name, which is no longer
/// there to refer to. A failed call ends the action with the platform's
/// words, and the log hears nothing.
pub open spec fn transition(
    stage: Stage,
    event: Event,
    invocation: Invocation,
    config: Config,
) -> StepView {
    match stage {
        Stage::Invoked => admission(
            invocation,
            config,
            "You don't have permission to use this command!"@,
        ),
        Stage::Checking => match reading_failure(event) {
            Some(cause) => failure(cause),
            None => verdict(event->Directory_0, invocation, config),
        },
        Stage::Creating => failure(out_of_turn()),
        Stage::Rebuilding(_) => failure(out_of_turn()),
        Stage::Retiring { channel_id, name } => match reading_failure(event) {
            Some(cause) => failure(cause),
            None => conclusion(
                event->Directory_0,
                config,
                Some(
                    action_notice(
                        config.log_channel_id,
                        deed(name@),
                        invocation.user_id,
                        EmbedColor::Red,
                        None,
                    ),
                ),
                None,
            ),
        },
        Stage::Finished => ending(event),
    }
}

fn decide(event: &Event, invocation: &Invocation, config: &Config) -> (step: Step)
    requires
        serves(*config, Command::Delete),
    ensures
        step@ == match reading_failure(*event) {
            Some(cause) => failure(cause),
            None => verdict(event->Directory_0, *invocation, *config),
        },
{
    let directory = match event {
        Event::Directory(directory) => directory,
        Event::Failed(cause) => {
            return fail(cause.as_str());
        },
        _ => {
            return fail("The platform answered out of turn");
        },
    };
    let entries = match get_managed_channels(directory, config) {
        Ok(entries) => entries,
        Err(error) => {
            return fail(error.cause.as_str());
        },
    };
    let entry = match find_channel(&entries, invocation.channel_id) {
        Some(entry) => entry,
        None => {
            return refuse("This channel was not created by the bot and cannot be deleted!");
        },
    };
    let mut actions: Vec<Action> = Vec::new();
    actions.push(Action::Respond(String::from_str("Deleting channel...")));
    actions.push(Action::DeleteChannel { channel_id: invocation.channel_id });
    let ghost head = actions_view(actions@);
    assert(head =~= seq![
        ActionView::Respond("Deleting channel..."@),
        ActionView::DeleteChannel { channel_id: invocation.channel_id },
    ]);
    push_rebuild(&mut actions, config);
    Step {
        next: Stage::Retiring { channel_id: invocation.channel_id, name: entry.name.clone() },
        actions,
        failure: None,
    }
}

fn finish(name: &str, event: &Event, invocation: &Invocation, config: &Config) -> (step: Step)
    requires
        serves(*config, Command::Delete),
    ensures
        step@ == match reading_failure(*event) {
            Some(cause) => failure(cause),
            None => conclusion(
                event->Directory_0,
                *config,
                Some(
                    action_notice(
                        config.log_channel_id,
                        deed(name@),
                        invocation.user_id,
                        EmbedColor::Red,
                        None,
                    ),
                ),
                None,
            ),
        },
{
    proof {
        reveal_strlit("[");
    }
    let mut deed_text = String::from_str("[");
    deed_text.append(name);
    deed_text.append("] deleted");
    assert(deed_text@ =~= deed(name@));
    let log = send_action_embed(
        config.log_channel_id(),
        deed_text.as_str(),
        invocation.user_id,
        EmbedColor::Red,
        None,
    );
    conclude(event, config, Some(log), None)
}

/// One step of retiring: from `stage`, on the answer `event` to the calls
/// of the step before, to the next stage and the calls to make. The
/// configuration must hold what the command needs.
pub fn run(stage: &Stage, event: &Event, invocation: &Invocation, config: &Config) -> (step: Step)
    requires
        serves(*config, Command::Delete),
    ensures
        step@ == transition(*stage, *event, *invocation, *config),
{
    match stage {
        Stage::Invoked => authorize(
            invocation,
            config,
            "You don't have permission to use this command!",
        ),
        Stage::Checking => decide(event, invocation, config),
        Stage::Creating => fail("The platform answered out of turn"),
        Stage::Rebuilding(_) => fail("The platform answered out of turn"),
        Stage::Retiring { channel_id: _, name } => finish(name.as_str(), event, invocation, config),
        Stage::Finished => end(event),
    }
}

} // verus!
