//! The five actions that members invoke, each as a state machine.
//!
//! An action alternates decisions and calls to the platform. The decisions
//! are made here: a step takes the stage that the action has reached and
//! what the platform answered, and gives the calls to make next. Whoever
//! runs the action makes those calls in order, stops at the first that
//! fails, and comes back with the answer of the last one made.

pub mod create;
pub mod delete;
pub mod description;
pub mod rename;
pub mod updatelist;

use crate::config::Config;
use crate::embed::{Embed, EmbedView};
use crate::error::{failure_text, PlatformError};
use crate::utils::{
    embeds_view, has_special_role, list_snapshot, update_channel_list, ChannelRequest,
    ChannelRequestView, Directory, Member,
};
use vstd::prelude::*;
use vstd::string::StringExecFns;

verus! {

/// One invocation of a command, as the platform delivers it.
#[derive(Debug, Clone, PartialEq, Eq)]
pub struct Invocation {
    /// The community in which the command was invoked, if it was in one.
    pub guild_id: Option<u64>,
    /// The channel in which the command was invoked.
    pub channel_id: u64,
    /// The invoker.
    pub user_id: u64,
    /// The invoker as a member of the community, where the platform says.
    pub member: Option<Member>,
    /// The first option of the command, if it is a string.
    pub argument: Option<String>,
}

/// The one option that a command takes: a string.
#[derive(Debug, Clone, PartialEq, Eq)]
pub struct CommandOption {
    pub name: String,
    pub description: String,
    pub required: bool,
}

/// A command as it is registered with the platform.
#[derive(Debug, Clone, PartialEq, Eq)]
pub struct CommandSpec {
    pub name: String,
    pub description: String,
    pub option: Option<CommandOption>,
}

/// The option of a command as a mathematical value.
pub struct CommandOptionView {
    pub name: Seq<char>,
    pub description: Seq<char>,
    pub required: bool,
}

/// A command as it is registered, as a mathematical value.
pub struct CommandSpecView {
    pub name: Seq<char>,
    pub description: Seq<char>,
    pub option: Option<CommandOptionView>,
}

impl View for CommandOption {
    type V = CommandOptionView;

    open spec fn view(&self) -> CommandOptionView {
        CommandOptionView {
            name: self.name@,
            description: self.description@,
            required: self.required,
        }
    }
}

impl View for CommandSpec {
    type V = CommandSpecView;

    open spec fn view(&self) -> CommandSpecView {
        CommandSpecView {
            name: self.name@,
            description: self.description@,
            option: match self.option {
                Some(option) => Some(option@),
                None => None,
            },
        }
    }
}

/// The commands of a list of commands as mathematical values.
pub open spec fn specs_view(commands: Seq<CommandSpec>) -> Seq<CommandSpecView> {
    commands.map_values(|command: CommandSpec| command@)
}

/// How far an action has come.
#[derive(Debug, Clone, PartialEq, Eq)]
pub enum Stage {
    /// Nothing has been done yet.
    Invoked,
    /// The directory is being read, to see whether the channel is managed.
    Checking,
    /// The platform is creating the channel.
    Creating,
    /// The platform has done what was asked; the old index is gone and the
    /// directory is being read for the new one. Holds the channel that the
    /// action was about.
    Rebuilding(u64),
    /// The platform has deleted the channel; the old index is gone and the
    /// directory is being read for the new one. Holds the channel that was
    /// deleted and the name that it had, which the directory no longer
    /// tells.
    Retiring { channel_id: u64, name: String },
    /// The action has ended.
    Finished,
}

/// A stage as a mathematical value.
pub enum StageView {
    Invoked,
    Checking,
    Creating,
    Rebuilding(u64),
    Retiring { channel_id: u64, name: Seq<char> },
    Finished,
}

impl View for Stage {
    type V = StageView;

    open spec fn view(&self) -> StageView {
        match *self {
            Stage::Invoked => StageView::Invoked,
            Stage::Checking => StageView::Checking,
            Stage::Creating => StageView::Creating,
            Stage::Rebuilding(channel_id) => StageView::Rebuilding(channel_id),
            Stage::Retiring { channel_id, name } => StageView::Retiring { channel_id, name: name@ },
            Stage::Finished => StageView::Finished,
        }
    }
}

/// A call to the platform.
#[derive(Debug, Clone, PartialEq, Eq)]
pub enum Action {
    /// Answer the invoker, for the invoker's eyes only.
    Respond(String),
    /// Replace the answer that the invoker got.
    EditResponse(String),
    /// Read the channel directory; the answer is a [`Directory`].
    ReadDirectory,
    /// Create a channel; the answer is its identifier.
    CreateChannel(ChannelRequest),
    /// Give a channel a new name.
    RenameChannel { channel_id: u64, name: String },
    /// Give a channel a new topic; an empty one clears it.
    SetTopic { channel_id: u64, topic: String },
    /// Delete a channel for good.
    DeleteChannel { channel_id: u64 },
    /// Delete every notice in a channel.
    ClearList { channel_id: u64 },
    /// Post a notice.
    Send(Embed),
}

/// A call to the platform as a mathematical value.
pub enum ActionView {
    Respond(Seq<char>),
    EditResponse(Seq<char>),
    ReadDirectory,
    CreateChannel(ChannelRequestView),
    RenameChannel { channel_id: u64, name: Seq<char> },
    SetTopic { channel_id: u64, topic: Seq<char> },
    DeleteChannel { channel_id: u64 },
    ClearList { channel_id: u64 },
    Send(EmbedView),
}

impl View for Action {
    type V = ActionView;

    open spec fn view(&self) -> ActionView {
        match *self {
            Action::Respond(text) => ActionView::Respond(text@),
            Action::EditResponse(text) => ActionView::EditResponse(text@),
            Action::ReadDirectory => ActionView::ReadDirectory,
            Action::CreateChannel(request) => ActionView::CreateChannel(request@),
            Action::RenameChannel { channel_id, name } => ActionView::RenameChannel {
                channel_id,
                name: name@,
            },
            Action::SetTopic { channel_id, topic } => ActionView::SetTopic {
                channel_id,
                topic: topic@,
            },
            Action::DeleteChannel { channel_id } => ActionView::DeleteChannel { channel_id },
            Action::ClearList { channel_id } => ActionView::ClearList { channel_id },
            Action::Send(embed) => ActionView::Send(embed@),
        }
    }
}

/// What the platform answered to the calls of the last step.
#[derive(Debug, Clone, PartialEq, Eq)]
pub enum Event {
    /// The command was invoked; no call has been made.
    Start,
    /// Every call was made, and the last one has nothing to report.
    Done,
    /// Every call was made, and the last one read the directory.
    Directory(Directory),
    /// Every call was made, and the last one created this channel.
    Created(u64),
    /// A call failed, and the platform said why; the calls after it were
    /// not made.
    Failed(String),
}

/// One step of an action: the stage it reaches, the calls to make on the
/// way, in order, and the failure with which the action ends, if it does.
#[derive(Debug, Clone, PartialEq, Eq)]
pub struct Step {
    pub next: Stage,
    pub actions: Vec<Action>,
    pub failure: Option<PlatformError>,
}

/// A step as a mathematical value.
pub struct StepView {
    pub next: StageView,
    pub actions: Seq<ActionView>,
    pub failure: Option<Seq<char>>,
}

/// The calls of a list of calls as mathematical values.
pub open spec fn actions_view(actions: Seq<Action>) -> Seq<ActionView> {
    actions.map_values(|action: Action| action@)
}

impl View for Step {
    type V = StepView;

    open spec fn view(&self) -> StepView {
        StepView {
            next: self.next@,
            actions: actions_view(self.actions@),
            failure: match self.failure {
                Some(error) => Some(error@),
                None => None,
            },
        }
    }
}

/// The string that the invocation carries, if it carries one.
pub open spec fn argument_of(invocation: Invocation) -> Option<Seq<char>> {
    match invocation.argument {
        Some(text) => Some(text@),
        None => None,
    }
}

/// The step that ends an action with a refusal: the invoker is told why,
/// and nothing else happens.
pub open spec fn refusal(text: Seq<char>) -> StepView {
    StepView { next: StageView::Finished, actions: seq![ActionView::Respond(text)], failure: None }
}

/// The step that ends an action with a failure: no call is made.
pub open spec fn failure(cause: Seq<char>) -> StepView {
    StepView { next: StageView::Finished, actions: Seq::empty(), failure: Some(cause) }
}

/// The step of an action that has ended: there is nothing left to do.
pub open spec fn idle() -> StepView {
    StepView { next: StageView::Finished, actions: Seq::empty(), failure: None }
}

/// The step of an action after its last calls: where one of them failed
/// the action fails with the platform's words, and else it has ended.
pub open spec fn ending(event: Event) -> StepView {
    match event {
        Event::Failed(cause) => failure(cause@),
        _ => idle(),
    }
}

/// The cause given where the platform's answer does not fit the stage.
pub open spec fn out_of_turn() -> Seq<char> {
    "The platform answered out of turn"@
}

/// The cause given where the platform does not say who the invoker is.
pub open spec fn no_member() -> Seq<char> {
    "Unable to get member data"@
}

/// The failure that an answer, awaited as a reading of the directory,
/// stands for; `None` where it is a reading that could be made.
pub open spec fn reading_failure(event: Event) -> Option<Seq<char>> {
    match event {
        Event::Directory(Directory::Unreadable(cause)) => Some(cause@),
        Event::Directory(_) => None,
        Event::Failed(cause) => Some(cause@),
        _ => Some(out_of_turn()),
    }
}

/// The first step of an action on a channel that is there already. The
/// platform must say who the invoker is, and the invoker must hold the
/// special role, or is told `denial`. Then the directory is read, to see
/// whether the channel is managed.
pub open spec fn admission(invocation: Invocation, config: Config, denial: Seq<char>) -> StepView {
    if invocation.member is None {
        failure(no_member())
    } else if !invocation.member->0.roles@.contains(config.special_role_id) {
        refusal(denial)
    } else {
        StepView {
            next: StageView::Checking,
            actions: seq![ActionView::ReadDirectory],
            failure: None,
        }
    }
}

/// The calls that take the old index away and ask for what the new one is
/// made from.
pub open spec fn rebuild_calls(config: Config) -> Seq<ActionView> {
    seq![ActionView::ClearList { channel_id: config.list_channel_id }, ActionView::ReadDirectory]
}

/// One call to post each of `lines`, in their order.
pub open spec fn postings(lines: Seq<EmbedView>) -> Seq<ActionView> {
    lines.map_values(|line: EmbedView| ActionView::Send(line))
}

/// What is left to say once the platform has done what was asked.
pub open spec fn closing(log: Option<EmbedView>, confirmation: Option<Seq<char>>) -> Seq<
    ActionView,
> {
    (match log {
        Some(notice) => seq![ActionView::Send(notice)],
        None => Seq::empty(),
    }) + (match confirmation {
        Some(text) => seq![ActionView::EditResponse(text)],
        None => Seq::empty(),
    })
}

/// The last step of an action that changed something: the new index is
/// posted from the reading `directory`, then the log is told, then the
/// invoker.
pub open spec fn conclusion(
    directory: Directory,
    config: Config,
    log: Option<EmbedView>,
    confirmation: Option<Seq<char>>,
) -> StepView {
    StepView {
        next: StageView::Finished,
        actions: postings(list_snapshot(directory, config)) + closing(log, confirmation),
        failure: None,
    }
}

/// The step that ends an action by telling the invoker `text`.
pub fn refuse(text: &str) -> (step: Step)
    ensures
        step@ == refusal(text@),
{
    let mut actions: Vec<Action> = Vec::new();
    actions.push(Action::Respond(String::from_str(text)));
    assert(actions_view(actions@) =~= seq![ActionView::Respond(text@)]);
    Step { next: Stage::Finished, actions, failure: None }
}

/// The step that ends an action with the failure `cause`.
pub fn fail(cause: &str) -> (step: Step)
    ensures
        step@ == failure(cause@),
{
    let actions: Vec<Action> = Vec::new();
    assert(actions_view(actions@) =~= Seq::empty());
    Step { next: Stage::Finished, actions, failure: Some(PlatformError::new(cause)) }
}

/// The step of an action that has ended.
pub fn rest() -> (step: Step)
    ensures
        step@ == idle(),
{
    let actions: Vec<Action> = Vec::new();
    assert(actions_view(actions@) =~= Seq::empty());
    Step { next: Stage::Finished, actions, failure: None }
}

/// The first step of an action on a channel that is there already: the
/// invoker is let in, or told `denial`.
pub fn authorize(invocation: &Invocation, config: &Config, denial: &str) -> (step: Step)
    requires
        config.special_role_id != 0,
    ensures
        step@ == admission(*invocation, *config, denial@),
{
    let member = match &invocation.member {
        Some(member) => member,
        None => {
            return fail("Unable to get member data");
        },
    };
    if !has_special_role(member, config) {
        return refuse(denial);
    }
    let mut actions: Vec<Action> = Vec::new();
    actions.push(Action::ReadDirectory);
    assert(actions_view(actions@) =~= seq![ActionView::ReadDirectory]);
    Step { next: Stage::Checking, actions, failure: None }
}

/// The step of an action after its last calls, on the answer `event` to
/// them.
pub fn end(event: &Event) -> (step: Step)
    ensures
        step@ == ending(*event),
{
    match event {
        Event::Failed(cause) => fail(cause.as_str()),
        _ => rest(),
    }
}

/// Appends to `actions` the calls that take the old index away and ask for
/// what the new one is made from.
pub fn push_rebuild(actions: &mut Vec<Action>, config: &Config)
    requires
        config.list_channel_id != 0,
    ensures
        actions_view(final(actions)@) == actions_view(old(actions)@) + rebuild_calls(*config),
{
    actions.push(Action::ClearList { channel_id: config.list_channel_id() });
    actions.push(Action::ReadDirectory);
    assert(actions_view(actions@) =~= actions_view(old(actions)@) + rebuild_calls(*config));
}

/// The last step of an action that changed something, from the answer
/// `event` to the reading of the directory: the new index, then the notice
/// `log` for the log channel, then `confirmation` for the invoker. Where
/// the answer is not a reading, the action fails and posts nothing.
pub fn conclude(event: &Event, config: &Config, log: Option<Embed>, confirmation: Option<&str>) -> (step:
    Step)
    requires
        config.names_channels(),
    ensures
        step@ == match reading_failure(*event) {
            Some(cause) => failure(cause),
            None => conclusion(
                event->Directory_0,
                *config,
                match log {
                    Some(notice) => Some(notice@),
                    None => None,
                },
                match confirmation {
                    Some(text) => Some(text@),
                    None => None,
                },
            ),
        },
{
    match event {
        Event::Directory(directory) => {
            match update_channel_list(directory, config) {
                Err(error) => {
                    let actions: Vec<Action> = Vec::new();
                    assert(actions_view(actions@) =~= Seq::empty());
                    Step { next: Stage::Finished, actions, failure: Some(error) }
                },
                Ok(lines) => {
                    let ghost snapshot = list_snapshot(*directory, *config);
                    let mut actions: Vec<Action> = Vec::new();
                    let mut i: usize = 0;
                    assert(actions_view(actions@) =~= postings(snapshot.take(0)));
                    while i < lines.len()
                        invariant
                            i <= lines.len(),
                            embeds_view(lines@) == snapshot,
                            actions_view(actions@) == postings(snapshot.take(i as int)),
                        decreases lines.len() - i,
                    {
                        let ghost before = actions@;
                        let line = lines[i].duplicate();
                        assert(line@ == snapshot[i as int]);
                        actions.push(Action::Send(line));
                        assert(snapshot.take(i + 1) =~= snapshot.take(i as int).push(
                            snapshot[i as int],
                        ));
                        assert(actions_view(actions@) =~= actions_view(before).push(
                            ActionView::Send(line@),
                        ));
                        assert(actions_view(actions@) =~= postings(snapshot.take(i + 1)));
                        i += 1;
                    }
                    assert(snapshot.take(i as int) =~= snapshot);
                    let ghost posted = actions_view(actions@);
                    match log {
                        Some(notice) => {
                            actions.push(Action::Send(notice));
                        },
                        None => {},
                    }
                    match confirmation {
                        Some(text) => {
                            actions.push(Action::EditResponse(String::from_str(text)));
                        },
                        None => {},
                    }
                    assert(actions_view(actions@) =~= posted + closing(
                        match log {
                            Some(notice) => Some(notice@),
                            None => None,
                        },
                        match confirmation {
                            Some(text) => Some(text@),
                            None => None,
                        },
                    ));
                    Step { next: Stage::Finished, actions, failure: None }
                },
            }
        },
        Event::Failed(cause) => fail(cause.as_str()),
        _ => fail("The platform answered out of turn"),
    }
}

/// The five commands.
#[derive(Clone, Copy, Debug, PartialEq, Eq, Structural)]
pub enum Command {
    Create,
    Delete,
    Rename,
    Description,
    UpdateList,
}

/// The command that is registered under `name`, if there is one.
pub open spec fn command_named(name: Seq<char>) -> Option<Command> {
    if name == "create"@ {
        Some(Command::Create)
    } else if name == "delete"@ {
        Some(Command::Delete)
    } else if name == "rename"@ {
        Some(Command::Rename)
    } else if name == "description"@ {
        Some(Command::Description)
    } else if name == "updatelist"@ {
        Some(Command::UpdateList)
    } else {
        None
    }
}

/// The role that `command` asks of its invoker: the manager role for a
/// forced rebuild, the special role for the rest.
pub open spec fn role_for(command: Command, config: Config) -> u64 {
    if command == Command::UpdateList {
        config.manager_role_id
    } else {
        config.special_role_id
    }
}

/// The configuration holds what `command` needs: the category, the log
/// channel, the list channel and the role that the command asks for are
/// identifiers that the platform can have.
pub open spec fn serves(config: Config, command: Command) -> bool {
    config.names_channels() && role_for(command, config) != 0
}

/// The step of `command` from `stage` on the answer `event`.
pub open spec fn transition_of(
    command: Command,
    stage: Stage,
    event: Event,
    invocation: Invocation,
    config: Config,
) -> StepView {
    match command {
        Command::Create => create::transition(stage, event, invocation, config),
        Command::Delete => delete::transition(stage, event, invocation, config),
        Command::Rename => rename::transition(stage, event, invocation, config),
        Command::Description => description::transition(stage, event, invocation, config),
        Command::UpdateList => updatelist::transition(stage, event, invocation, config),
    }
}

/// A step with its failure told to the invoker: where the step ends the
/// action with a failure, the invoker gets a notice that embeds the cause.
pub open spec fn reported(step: StepView) -> StepView {
    match step.failure {
        Some(cause) => StepView {
            next: step.next,
            actions: step.actions.push(ActionView::Respond(failure_text(cause))),
            failure: step.failure,
        },
        None => step,
    }
}

/// The step of the command named `name`; a name that no command has ends
/// at once, with nothing done.
pub open spec fn interaction(
    name: Seq<char>,
    stage: Stage,
    event: Event,
    invocation: Invocation,
    config: Config,
) -> StepView {
    match command_named(name) {
        Some(command) => reported(transition_of(command, stage, event, invocation, config)),
        None => idle(),
    }
}

/// The command that is registered under `name`, if there is one.
pub fn dispatch(name: &str) -> (command: Option<Command>)
    ensures
        command == command_named(name@),
{
    if text_equal(name, "create") {
        Some(Command::Create)
    } else if text_equal(name, "delete") {
        Some(Command::Delete)
    } else if text_equal(name, "rename") {
        Some(Command::Rename)
    } else if text_equal(name, "description") {
        Some(Command::Description)
    } else if text_equal(name, "updatelist") {
        Some(Command::UpdateList)
    } else {
        None
    }
}

/// Whether two texts are the same.
pub fn text_equal(a: &str, b: &str) -> (same: bool)
    ensures
        same == (a@ == b@),
{
    let x = String::from_str(a);
    let y = String::from_str(b);
    x == y
}

/// Whether the configuration holds what `command` needs.
pub fn can_serve(config: &Config, command: Command) -> (able: bool)
    ensures
        able == serves(*config, command),
{
    let role = match command {
        Command::UpdateList => config.manager_role_id,
        _ => config.special_role_id,
    };
    config.has_channels() && role != 0
}

/// One step of `command`. The configuration must hold what the command
/// needs.
pub fn step_of(
    command: Command,
    stage: &Stage,
    event: &Event,
    invocation: &Invocation,
    config: &Config,
) -> (step: Step)
    requires
        serves(*config, command),
    ensures
        step@ == transition_of(command, *stage, *event, *invocation, *config),
{
    match command {
        Command::Create => create::run(stage, event, invocation, config),
        Command::Delete => delete::run(stage, event, invocation, config),
        Command::Rename => rename::run(stage, event, invocation, config),
        Command::Description => description::run(stage, event, invocation, config),
        Command::UpdateList => updatelist::run(stage, event, invocation, config),
    }
}

/// One step of the command that the invoker named: the step of that
/// command, and, where it ends the action with a failure, a notice of the
/// failure for the invoker. The failure stays in the step, for the
/// diagnostic stream of the process.
pub fn interaction_create(
    name: &str,
    stage: &Stage,
    event: &Event,
    invocation: &Invocation,
    config: &Config,
) -> (step: Step)
    requires
        command_named(name@) matches Some(command) ==> serves(*config, command),
    ensures
        step@ == interaction(name@, *stage, *event, *invocation, *config),
{
    match dispatch(name) {
        None => rest(),
        Some(command) => {
            let mut step = step_of(command, stage, event, invocation, config);
            let ghost plain = step@;
            match &step.failure {
                Some(error) => {
                    let notice = error.message();
                    step.actions.push(Action::Respond(notice));
                    assert(actions_view(step.actions@) =~= plain.actions.push(
                        ActionView::Respond(failure_text(plain.failure->0)),
                    ));
                },
                None => {},
            }
            step
        },
    }
}

/// One step of the command that the invoker named, for a caller that has
/// not looked at the configuration: the step that [`interaction_create`]
/// gives where the configuration holds what the command needs, and `None`
/// where it does not, in which case nothing has been decided.
pub fn try_interaction_create(
    name: &str,
    stage: &Stage,
    event: &Event,
    invocation: &Invocation,
    config: &Config,
) -> (step: Option<Step>)
    ensures
        step is None <==> (command_named(name@) matches Some(command) && !serves(
            *config,
            command,
        )),
        step matches Some(made) ==> made@ == interaction(
            name@,
            *stage,
            *event,
            *invocation,
            *config,
        ),
{
    match dispatch(name) {
        Some(command) => {
            if !can_serve(config, command) {
                return None;
            }
        },
        None => {},
    }
    Some(interaction_create(name, stage, event, invocation, config))
}

/// The commands to register with the platform when the process is ready,
/// in the order in which they are registered.
pub fn registrations() -> (commands: Vec<CommandSpec>)
    ensures
        specs_view(commands@) == seq![
            create::registration(),
            delete::registration(),
            rename::registration(),
            description::registration(),
            updatelist::registration(),
        ],
{
    let mut commands: Vec<CommandSpec> = Vec::new();
    commands.push(create::register());
    commands.push(delete::register());
    commands.push(rename::register());
    commands.push(description::register());
    commands.push(updatelist::register());
    assert(specs_view(commands@) =~= seq![
        create::registration(),
        delete::registration(),
        rename::registration(),
        description::registration(),
        updatelist::registration(),
    ]);
    commands
}

} // verus!
