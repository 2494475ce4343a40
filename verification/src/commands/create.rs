//! Provision: a member makes a channel of their own under the configured
//! category.

use crate::commands::{
    actions_view, argument_of, conclude, conclusion, end, ending, fail, failure, no_member,
    out_of_turn, push_rebuild, reading_failure, rebuild_calls, refusal, refuse, serves, Action,
    ActionView, Command, CommandOption, CommandOptionView, CommandSpec, CommandSpecView, Event,
    Invocation, Stage, StageView, Step, StepView,
};
use crate::config::Config;
use crate::embed::{action_notice, channel_mention, push_channel_mention, send_action_embed, EmbedColor};
use crate::ownership::owner_acl;
use crate::utils::{
    create_channel_with_permissions, has_special_role, ChannelKind, ChannelRequestView,
};
use vstd::prelude::*;
use vstd::string::StringExecFns;

verus! {

/// The command as it is registered: `create`, with the name of the new
/// channel as its one, required option.
pub open spec fn registration() -> CommandSpecView {
    CommandSpecView { name: "create"@, description: "Create a new channel."@, option: Some(CommandOptionView { name: "name"@, description: "Name of the channel"@, required: true }) }
}

/// The command as it is registered with the platform.
pub fn register() -> (command: CommandSpec)
    ensures
        command@ == registration(),
{
    CommandSpec {
        name: String::from_str("create"),
        description: String::from_str("Create a new channel."),
        option: Some(
            CommandOption {
                name: String::from_str("name"),
                description: String::from_str("Name of the channel"),
                required: true,
            },
        ),
    }
}

/// What the invoker reads once the channel `channel_id` stands.
pub open spec fn confirmation(channel_id: u64) -> Seq<char> {
    "Channel created successfully! "@ + channel_mention(channel_id)
}

/// The first step. The command must come from a community and from a
/// member of it; the member must hold the special role; the name must be
/// there and not be empty. Then the invoker is told that work has begun,
/// and the platform is asked for a text channel of that name under the
/// configured category, with the invoker recorded as its creator.
pub open spec fn opening(invocation: Invocation, config: Config) -> StepView {
    if invocation.guild_id is None {
        failure("This command can only be used in a server"@)
    } else if invocation.member is None {
        failure(no_member())
    } else if !invocation.member->0.roles@.contains(config.special_role_id) {
        refusal("You do not have permission to use this command!"@)
    } else if argument_of(invocation) is None || argument_of(invocation)->0.len() == 0 {
        refusal("Channel name is not valid!"@)
    } else {
        StepView {
            next: StageView::Creating,
            actions: seq![
                ActionView::Respond("Creating channel..."@),
                ActionView::CreateChannel(
                    ChannelRequestView {
                        guild_id: invocation.guild_id->0,
                        name: argument_of(invocation)->0,
                        kind: ChannelKind::Text,
                        category_id: config.category_id,
                        permissions: owner_acl(invocation.user_id, invocation.guild_id->0),
                    },
                ),
            ],
            failure: None,
        }
    }
}

/// The step of provisioning from `stage` on the answer `event`.
///
/// Once the platform has created the channel the index is rebuilt; once the
/// directory has been read the new index is posted, the log is told that
/// the invoker created the channel, and the invoker gets a reference to it.
/// A failed call ends the action with the platform's words.
pub open spec fn transition(
    stage: Stage,
    event: Event,
    invocation: Invocation,
    config: Config,
) -> StepView {
    match stage {
        Stage::Invoked => opening(invocation, config),
        Stage::Checking => failure(out_of_turn()),
        Stage::Creating => match event {
            Event::Created(channel_id) => StepView {
                next: StageView::Rebuilding(channel_id),
                actions: rebuild_calls(config),
                failure: None,
            },
            Event::Failed(cause) => failure(cause@),
            _ => failure(out_of_turn()),
        },
        Stage::Rebuilding(channel_id) => match reading_failure(event) {
            Some(cause) => failure(cause),
            None => conclusion(
                event->Directory_0,
                config,
                Some(
                    action_notice(
                        config.log_channel_id,
                        "created"@,
                        invocation.user_id,
                        EmbedColor::Green,
                        Some(channel_id),
                    ),
                ),
                Some(confirmation(channel_id)),
            ),
        },
        Stage::Retiring { .. } => failure(out_of_turn()),
        Stage::Finished => ending(event),
    }
}

fn begin(invocation: &Invocation, config: &Config) -> (step: Step)
    requires
        serves(*config, Command::Create),
    ensures
        step@ == opening(*invocation, *config),
{
    let guild_id = match invocation.guild_id {
        Some(guild_id) => guild_id,
        None => {
            return fail("This command can only be used in a server");
        },
    };
    let member = match &invocation.member {
        Some(member) => member,
        None => {
            return fail("Unable to get member data");
        },
    };
    if !has_special_role(member, config) {
        return refuse("You do not have permission to use this command!");
    }
    let name = match &invocation.argument {
        Some(name) => name,
        None => {
            return refuse("Channel name is not valid!");
        },
    };
    if name.as_str().is_empty() {
        return refuse("Channel name is not valid!");
    }
    let request = create_channel_with_permissions(
        config,
        name.as_str(),
        invocation.user_id,
        guild_id,
    );
    let mut actions: Vec<Action> = Vec::new();
    actions.push(Action::Respond(String::from_str("Creating channel...")));
    actions.push(Action::CreateChannel(request));
    assert(actions_view(actions@) =~= opening(*invocation, *config).actions);
    Step { next: Stage::Creating, actions, failure: None }
}

/// One step of provisioning: from `stage`, on the answer `event` to the
/// calls of the step before, to the next stage and the calls to make. The
/// configuration must hold what the command needs.
pub fn run(stage: &Stage, event: &Event, invocation: &Invocation, config: &Config) -> (step: Step)
    requires
        serves(*config, Command::Create),
    ensures
        step@ == transition(*stage, *event, *invocation, *config),
{
    match stage {
        Stage::Invoked => begin(invocation, config),
        Stage::Checking => fail("The platform answered out of turn"),
        Stage::Creating => match event {
            Event::Created(channel_id) => {
                let mut actions: Vec<Action> = Vec::new();
                assert(actions_view(actions@) =~= Seq::empty());
                push_rebuild(&mut actions, config);
                assert(actions_view(actions@) =~= rebuild_calls(*config));
                Step { next: Stage::Rebuilding(*channel_id), actions, failure: None }
            },
            Event::Failed(cause) => fail(cause.as_str()),
            _ => fail("The platform answered out of turn"),
        },
        Stage::Rebuilding(channel_id) => {
            let log = send_action_embed(
                config.log_channel_id(),
                "created",
                invocation.user_id,
                EmbedColor::Green,
                Some(*channel_id),
            );
            let mut text = String::from_str("Channel created successfully! ");
            push_channel_mention(&mut text, *channel_id);
            conclude(event, config, Some(log), Some(text.as_str()))
        },
        Stage::Retiring { .. } => fail("The platform answered out of turn"),
        Stage::Finished => end(event),
    }
}

} // verus!
