//! Rename: a member gives a managed channel a new name.

use crate::commands::{
    actions_view, admission, argument_of, authorize, conclude, conclusion, end, ending, fail,
    failure, out_of_turn, push_rebuild, reading_failure, rebuild_calls, refusal, refuse,
    serves, Action, ActionView, Command, CommandOption, CommandOptionView, CommandSpec,
    CommandSpecView, Event, Invocation, Stage, StageView, Step, StepView,
};
use crate::config::Config;
use crate::embed::{action_notice, send_action_embed, EmbedColor};
use crate::utils::{discovered, is_managed_channel, lists_channel, Directory};
use vstd::prelude::*;
use vstd::string::StringExecFns;

verus! {

/// The command as it is registered: `rename`, with the new name as its one,
/// required option.
pub open spec fn registration() -> CommandSpecView {
    CommandSpecView { name: "rename"@, description: "Rename the channel."@, option: Some(CommandOptionView { name: "name"@, description: "New channel name"@, required: true }) }
}

/// The command as it is registered with the platform.
pub fn register() -> (command: CommandSpec)
    ensures
        command@ == registration(),
{
    CommandSpec {
        name: String::from_str("rename"),
        description: String::from_str("Rename the channel."),
        option: Some(
            CommandOption {
                name: String::from_str("name"),
                description: String::from_str("New channel name"),
                required: true,
            },
        ),
    }
}

/// The step once the directory has been read. A channel that is not
/// managed is left alone, and so is one for which no name, or an empty one,
/// was given: the invoker is told, and no call changes anything. Else the
/// invoker is told that work has begun, the channel gets its name, and the
/// index is rebuilt.
pub open spec fn verdict(directory: Directory, invocation: Invocation, config: Config) -> StepView {
    if !lists_channel(discovered(directory, config), invocation.channel_id) {
        refusal("This channel was not created by the bot and cannot be renamed!"@)
    } else if argument_of(invocation) is None || argument_of(invocation)->0.len() == 0 {
        refusal("Channel name not valid!"@)
    } else {
        StepView {
            next: StageView::Rebuilding(invocation.channel_id),
            actions: seq![
                ActionView::Respond("Renaming channel..."@),
                ActionView::RenameChannel {
                    channel_id: invocation.channel_id,
                    name: argument_of(invocation)->0,
                },
            ] + rebuild_calls(config),
            failure: None,
        }
    }
}

/// The step of renaming from `stage` on the answer `event`.
///
/// The invoker must hold the special role, and the channel in which the
/// command was invoked must be managed. Once the directory has been read
/// again the new index is posted, the log is told that the invoker renamed
/// the channel, and the invoker is told that it is done. A failed call ends
/// the action with the platform's words.
pub open spec fn transition(
    stage: Stage,
    event: Event,
    invocation: Invocation,
    config: Config,
) -> StepView {
    match stage {
        Stage::Invoked => admission(
            invocation,
            config,
            "You don't have permission to use this command!"@,
        ),
        Stage::Checking => match reading_failure(event) {
            Some(cause) => failure(cause),
            None => verdict(event->Directory_0, invocation, config),
        },
        Stage::Creating => failure(out_of_turn()),
        Stage::Rebuilding(channel_id) => match reading_failure(event) {
            Some(cause) => failure(cause),
            None => conclusion(
                event->Directory_0,
                config,
                Some(
                    action_notice(
                        config.log_channel_id,
                        "renamed"@,
                        invocation.user_id,
                        EmbedColor::Yellow,
                        Some(channel_id),
                    ),
                ),
                Some("Channel renamed successfully!"@),
            ),
        },
        Stage::Retiring { .. } => failure(out_of_turn()),
        Stage::Finished => ending(event),
    }
}

fn decide(event: &Event, invocation: &Invocation, config: &Config) -> (step: Step)
    requires
        serves(*config, Command::Rename),
    ensures
        step@ == match reading_failure(*event) {
            Some(cause) => failure(cause),
            None => verdict(event->Directory_0, *invocation, *config),
        },
{
    let directory = match event {
        Event::Directory(directory) => directory,
        Event::Failed(cause) => {
            return fail(cause.as_str());
        },
        _ => {
            return fail("The platform answered out of turn");
        },
    };
    let managed = match is_managed_channel(directory, config, invocation.channel_id) {
        Ok(managed) => managed,
        Err(error) => {
            return fail(error.cause.as_str());
        },
    };
    if !managed {
        return refuse("This channel was not created by the bot and cannot be renamed!");
    }
    let name = match &invocation.argument {
        Some(name) => name,
        None => {
            return refuse("Channel name not valid!");
        },
    };
    if name.as_str().is_empty() {
        return refuse("Channel name not valid!");
    }
    let mut actions: Vec<Action> = Vec::new();
    actions.push(Action::Respond(String::from_str("Renaming channel...")));
    actions.push(
        Action::RenameChannel { channel_id: invocation.channel_id, name: name.clone() },
    );
    let ghost head = actions_view(actions@);
    assert(head =~= seq![
        ActionView::Respond("Renaming channel..."@),
        ActionView::RenameChannel {
            channel_id: invocation.channel_id,
            name: argument_of(*invocation)->0,
        },
    ]);
    push_rebuild(&mut actions, config);
    Step { next: Stage::Rebuilding(invocation.channel_id), actions, failure: None }
}

/// One step of renaming: from `stage`, on the answer `event` to the calls
/// of the step before, to the next stage and the calls to make. The
/// configuration must hold what the command needs.
pub fn run(stage: &Stage, event: &Event, invocation: &Invocation, config: &Config) -> (step: Step)
    requires
        serves(*config, Command::Rename),
    ensures
        step@ == transition(*stage, *event, *invocation, *config),
{
    match stage {
        Stage::Invoked => authorize(invocation, config, "You don't have permission to use this command!"),
        Stage::Checking => decide(event, invocation, config),
        Stage::Creating => fail("The platform answered out of turn"),
        Stage::Rebuilding(channel_id) => {
            let log = send_action_embed(
                config.log_channel_id(),
                "renamed",
                invocation.user_id,
                EmbedColor::Yellow,
                Some(*channel_id),
            );
            conclude(event, config, Some(log), Some("Channel renamed successfully!"))
        },
        Stage::Retiring { .. } => fail("The platform answered out of turn"),
        Stage::Finished => end(event),
    }
}

} // verus!
