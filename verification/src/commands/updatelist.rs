//! Force a rebuild: a manager has the public index made anew.

use crate::commands::{
    actions_view, conclude, conclusion, end, ending, fail, failure, no_member, out_of_turn,
    push_rebuild, reading_failure, rebuild_calls, refusal, refuse, serves, Action, ActionView,
    Command, CommandSpec, CommandSpecView, Event, Invocation, Stage, StageView, Step, StepView,
};
use crate::config::Config;
use crate::embed::{action_notice, send_action_embed, EmbedColor};
use crate::utils::has_manager_role;
use vstd::prelude::*;
use vstd::string::StringExecFns;

verus! {

/// The command as it is registered: `updatelist`, without options.
pub open spec fn registration() -> CommandSpecView {
    CommandSpecView { name: "updatelist"@, description: "Force refresh the channel list."@, option: None }
}

/// The command as it is registered with the platform.
pub fn register() -> (command: CommandSpec)
    ensures
        command@ == registration(),
{
    CommandSpec {
        name: String::from_str("updatelist"),
        description: String::from_str("Force refresh the channel list."),
        option: None,
    }
}

/// The first step. The platform must say who the invoker is, and the
/// invoker must hold the manager role: the special role does not do. Then
/// the invoker is told that work has begun, and the index is rebuilt.
pub open spec fn opening(invocation: Invocation, config: Config) -> StepView {
    if invocation.member is None {
        failure(no_member())
    } else if !invocation.member->0.roles@.contains(config.manager_role_id) {
        refusal("Only managers can use this command!"@)
    } else {
        StepView {
            next: StageView::Rebuilding(config.list_channel_id),
            actions: seq![ActionView::Respond("Rebuilding the list..."@)] + rebuild_calls(config),
            failure: None,
        }
    }
}

/// The step of a forced rebuild from `stage` on the answer `event`.
///
/// Once the directory has been read the new index is posted, the log is
/// told that the invoker updated the list channel, and the invoker is told
/// that it is done. A failed call ends the action with the platform's
/// words.
pub open spec fn transition(
    stage: Stage,
    event: Event,
    invocation: Invocation,
    config: Config,
) -> StepView {
    match stage {
        Stage::Invoked => opening(invocation, config),
        Stage::Checking => failure(out_of_turn()),
        Stage::Creating => failure(out_of_turn()),
        Stage::Rebuilding(channel_id) => match reading_failure(event) {
            Some(cause) => failure(cause),
            None => conclusion(
                event->Directory_0,
                config,
                Some(
                    action_notice(
                        config.log_channel_id,
                        "updated"@,
                        invocation.user_id,
                        EmbedColor::Blue,
                        Some(channel_id),
                    ),
                ),
                Some("Channel list successfully rebuilt!"@),
            ),
        },
        Stage::Retiring { .. } => failure(out_of_turn()),
        Stage::Finished => ending(event),
    }
}

fn begin(invocation: &Invocation, config: &Config) -> (step: Step)
    requires
        serves(*config, Command::UpdateList),
    ensures
        step@ == opening(*invocation, *config),
{
    let member = match &invocation.member {
        Some(member) => member,
        None => {
            return fail("Unable to get member data");
        },
    };
    if !has_manager_role(member, config) {
        return refuse("Only managers can use this command!");
    }
    let mut actions: Vec<Action> = Vec::new();
    actions.push(Action::Respond(String::from_str("Rebuilding the list...")));
    let ghost head = actions_view(actions@);
    assert(head =~= seq![ActionView::Respond("Rebuilding the list..."@)]);
    push_rebuild(&mut actions, config);
    Step { next: Stage::Rebuilding(config.list_channel_id()), actions, failure: None }
}

/// One step of a forced rebuild: from `stage`, on the answer `event` to
/// the calls of the step before, to the next stage and the calls to make.
/// The configuration must hold what the command needs.
pub fn run(stage: &Stage, event: &Event, invocation: &Invocation, config: &Config) -> (step: Step)
    requires
        serves(*config, Command::UpdateList),
    ensures
        step@ == transition(*stage, *event, *invocation, *config),
{
    match stage {
        Stage::Invoked => begin(invocation, config),
        Stage::Checking => fail("The platform answered out of turn"),
        Stage::Creating => fail("The platform answered out of turn"),
        Stage::Rebuilding(channel_id) => {
            let log = send_action_embed(
                config.log_channel_id(),
                "updated",
                invocation.user_id,
                EmbedColor::Blue,
                Some(*channel_id),
            );
            conclude(event, config, Some(log), Some("Channel list successfully rebuilt!"))
        },
        Stage::Retiring { .. } => fail("The platform answered out of turn"),
        Stage::Finished => end(event),
    }
}

} // verus!
