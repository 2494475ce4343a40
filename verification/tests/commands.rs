use managed_channels::commands::{
    authorize, can_serve, conclude, create, delete, description, dispatch, end, fail,
    interaction_create,
    push_rebuild, refuse, registrations, rename, rest, step_of, text_equal,
    try_interaction_create, updatelist, Action,
    Command, CommandOption, CommandSpec, Event, Invocation, Stage, Step,
};
use managed_channels::config::Config;
use managed_channels::embed::Embed;
use managed_channels::error::PlatformError;
use managed_channels::ownership::encode_owner;
use managed_channels::utils::{ChannelKind, ChannelRecord, ChannelRequest, Directory, Member};

const CATEGORY: u64 = 10;
const LOG: u64 = 11;
const LIST: u64 = 12;
const SPECIAL: u64 = 20;
const MANAGER: u64 = 21;
const GUILD: u64 = 1;
const USER: u64 = 500;

fn config() -> Config {
    Config {
        token: String::from("token"),
        category_id: CATEGORY,
        log_channel_id: LOG,
        list_channel_id: LIST,
        special_role_id: SPECIAL,
        manager_role_id: MANAGER,
    }
}

fn text(id: u64, name: &str, creator: u64) -> ChannelRecord {
    ChannelRecord {
        id,
        kind: ChannelKind::Text,
        parent_id: Some(CATEGORY),
        name: String::from(name),
        topic: None,
        overwrites: encode_owner(creator, GUILD),
    }
}

fn invocation(channel_id: u64, roles: Vec<u64>, argument: Option<&str>) -> Invocation {
    Invocation {
        guild_id: Some(GUILD),
        channel_id,
        user_id: USER,
        member: Some(Member { user_id: USER, roles }),
        argument: argument.map(String::from),
    }
}

fn directory() -> Directory {
    Directory::Community(vec![text(101, "zeta", 902), text(100, "alpha", 901), text(LOG, "log", 0)])
}

fn refusal(text: &str) -> Step {
    Step { next: Stage::Finished, actions: vec![Action::Respond(String::from(text))], failure: None }
}

fn failure(cause: &str) -> Step {
    Step {
        next: Stage::Finished,
        actions: Vec::new(),
        failure: Some(PlatformError { cause: String::from(cause) }),
    }
}

fn index() -> Vec<Action> {
    vec![
        Action::Send(Embed { channel_id: LIST, description: String::from("<#100> by <@901>"), color: 5814783 }),
        Action::Send(Embed { channel_id: LIST, description: String::from("<#101> by <@902>"), color: 5814783 }),
    ]
}

fn rebuild() -> Vec<Action> {
    vec![Action::ClearList { channel_id: LIST }, Action::ReadDirectory]
}

fn log(description: &str, color: u32) -> Action {
    Action::Send(Embed { channel_id: LOG, description: String::from(description), color })
}

#[test]
fn helpers_make_the_plain_steps() {
    assert_eq!(refuse("no"), refusal("no"));
    assert_eq!(fail("why"), failure("why"));
    assert_eq!(rest(), Step { next: Stage::Finished, actions: Vec::new(), failure: None });
    let mut actions = vec![Action::ReadDirectory];
    push_rebuild(&mut actions, &config());
    assert_eq!(
        actions,
        vec![Action::ReadDirectory, Action::ClearList { channel_id: LIST }, Action::ReadDirectory]
    );
}

#[test]
fn text_equal_compares_texts() {
    assert!(text_equal("create", "create"));
    assert!(!text_equal("create", "Create"));
    assert!(!text_equal("create", "creat"));
    assert!(text_equal("", ""));
}

#[test]
fn dispatch_knows_the_five_commands() {
    assert_eq!(dispatch("create"), Some(Command::Create));
    assert_eq!(dispatch("delete"), Some(Command::Delete));
    assert_eq!(dispatch("rename"), Some(Command::Rename));
    assert_eq!(dispatch("description"), Some(Command::Description));
    assert_eq!(dispatch("updatelist"), Some(Command::UpdateList));
    assert_eq!(dispatch("Create"), None);
    assert_eq!(dispatch(""), None);
    assert_eq!(dispatch("retire"), None);
}

#[test]
fn registrations_are_the_five_commands_in_order() {
    let commands = registrations();
    let names: Vec<&str> = commands.iter().map(|command| command.name.as_str()).collect();
    assert_eq!(names, vec!["create", "delete", "rename", "description", "updatelist"]);
    for command in &commands {
        assert!(dispatch(&command.name).is_some());
    }
}

#[test]
fn register_create() {
    assert_eq!(
        create::register(),
        CommandSpec {
            name: String::from("create"),
            description: String::from("Create a new channel."),
            option: Some(CommandOption {
                name: String::from("name"),
                description: String::from("Name of the channel"),
                required: true,
            }),
        }
    );
}

#[test]
fn register_delete() {
    assert_eq!(
        delete::register(),
        CommandSpec {
            name: String::from("delete"),
            description: String::from("Delete the channel."),
            option: None,
        }
    );
}

#[test]
fn register_rename() {
    assert_eq!(
        rename::register(),
        CommandSpec {
            name: String::from("rename"),
            description: String::from("Rename the channel."),
            option: Some(CommandOption {
                name: String::from("name"),
                description: String::from("New channel name"),
                required: true,
            }),
        }
    );
}

#[test]
fn register_description() {
    assert_eq!(
        description::register(),
        CommandSpec {
            name: String::from("description"),
            description: String::from("Change the channel description."),
            option: Some(CommandOption {
                name: String::from("text"),
                description: String::from("Channel description (leave empty to remove)"),
                required: false,
            }),
        }
    );
}

#[test]
fn register_updatelist() {
    assert_eq!(
        updatelist::register(),
        CommandSpec {
            name: String::from("updatelist"),
            description: String::from("Force refresh the channel list."),
            option: None,
        }
    );
}

#[test]
fn authorize_lets_the_special_role_in() {
    let step = authorize(&invocation(100, vec![SPECIAL], None), &config(), "no");
    assert_eq!(step, Step { next: Stage::Checking, actions: vec![Action::ReadDirectory], failure: None });
    assert_eq!(authorize(&invocation(100, vec![MANAGER], None), &config(), "no"), refusal("no"));
    let mut stranger = invocation(100, vec![SPECIAL], None);
    stranger.member = None;
    assert_eq!(authorize(&stranger, &config(), "no"), failure("Unable to get member data"));
}

#[test]
fn conclude_posts_index_then_log_then_confirmation() {
    let notice = Embed { channel_id: LOG, description: String::from("done"), color: 1 };
    let step = conclude(&Event::Directory(directory()), &config(), Some(notice.clone()), Some("ok"));
    let mut actions = index();
    actions.push(Action::Send(notice));
    actions.push(Action::EditResponse(String::from("ok")));
    assert_eq!(step, Step { next: Stage::Finished, actions, failure: None });
    let bare = conclude(&Event::Directory(directory()), &config(), None, None);
    assert_eq!(bare, Step { next: Stage::Finished, actions: index(), failure: None });
}

#[test]
fn conclude_fails_without_a_reading() {
    let config = config();
    let unreadable = Event::Directory(Directory::Unreadable(String::from("gone")));
    assert_eq!(conclude(&unreadable, &config, None, Some("ok")), failure("gone"));
    assert_eq!(conclude(&Event::Failed(String::from("denied")), &config, None, None), failure("denied"));
    assert_eq!(conclude(&Event::Done, &config, None, None), failure("The platform answered out of turn"));
    assert_eq!(conclude(&Event::Start, &config, None, None), failure("The platform answered out of turn"));
    assert_eq!(conclude(&Event::Created(5), &config, None, None), failure("The platform answered out of turn"));
}

#[test]
fn create_asks_for_the_channel() {
    let step = create::run(&Stage::Invoked, &Event::Start, &invocation(1, vec![SPECIAL], Some("cats")), &config());
    assert_eq!(
        step,
        Step {
            next: Stage::Creating,
            actions: vec![
                Action::Respond(String::from("Creating channel...")),
                Action::CreateChannel(ChannelRequest {
                    guild_id: GUILD,
                    name: String::from("cats"),
                    kind: ChannelKind::Text,
                    category_id: CATEGORY,
                    permissions: encode_owner(USER, GUILD),
                }),
            ],
            failure: None,
        }
    );
}

#[test]
fn create_outside_a_community_fails() {
    let mut invocation = invocation(1, vec![SPECIAL], Some("cats"));
    invocation.guild_id = None;
    assert_eq!(
        create::run(&Stage::Invoked, &Event::Start, &invocation, &config()),
        failure("This command can only be used in a server")
    );
}

#[test]
fn create_without_member_data_fails() {
    let mut invocation = invocation(1, vec![SPECIAL], Some("cats"));
    invocation.member = None;
    assert_eq!(
        create::run(&Stage::Invoked, &Event::Start, &invocation, &config()),
        failure("Unable to get member data")
    );
}

#[test]
fn create_without_the_special_role_is_refused() {
    for roles in [vec![], vec![MANAGER], vec![1, 2, 3]] {
        assert_eq!(
            create::run(&Stage::Invoked, &Event::Start, &invocation(1, roles, Some("cats")), &config()),
            refusal("You do not have permission to use this command!")
        );
    }
}

#[test]
fn create_without_a_name_is_refused() {
    for argument in [None, Some("")] {
        assert_eq!(
            create::run(&Stage::Invoked, &Event::Start, &invocation(1, vec![SPECIAL], argument), &config()),
            refusal("Channel name is not valid!")
        );
    }
}

#[test]
fn create_rebuilds_once_the_channel_stands() {
    let invocation = invocation(1, vec![SPECIAL], Some("cats"));
    assert_eq!(
        create::run(&Stage::Creating, &Event::Created(77), &invocation, &config()),
        Step { next: Stage::Rebuilding(77), actions: rebuild(), failure: None }
    );
    assert_eq!(
        create::run(&Stage::Creating, &Event::Failed(String::from("Missing Permissions")), &invocation, &config()),
        failure("Missing Permissions")
    );
    assert_eq!(
        create::run(&Stage::Creating, &Event::Done, &invocation, &config()),
        failure("The platform answered out of turn")
    );
    assert_eq!(
        create::run(&Stage::Checking, &Event::Done, &invocation, &config()),
        failure("The platform answered out of turn")
    );
}

#[test]
fn create_ends_with_index_log_and_reference() {
    let invocation = invocation(1, vec![SPECIAL], Some("cats"));
    let step = create::run(&Stage::Rebuilding(77), &Event::Directory(directory()), &invocation, &config());
    let mut actions = index();
    actions.push(log("<#77> created by <@500>", 3066993));
    actions.push(Action::EditResponse(String::from("Channel created successfully! <#77>")));
    assert_eq!(step, Step { next: Stage::Finished, actions, failure: None });
}

#[test]
fn rename_checks_then_renames() {
    let invocation = invocation(100, vec![SPECIAL], Some("beta"));
    assert_eq!(
        rename::run(&Stage::Invoked, &Event::Start, &invocation, &config()),
        Step { next: Stage::Checking, actions: vec![Action::ReadDirectory], failure: None }
    );
    let mut actions = vec![
        Action::Respond(String::from("Renaming channel...")),
        Action::RenameChannel { channel_id: 100, name: String::from("beta") },
    ];
    actions.extend(rebuild());
    assert_eq!(
        rename::run(&Stage::Checking, &Event::Directory(directory()), &invocation, &config()),
        Step { next: Stage::Rebuilding(100), actions, failure: None }
    );
    let mut actions = index();
    actions.push(log("<#100> renamed by <@500>", 16776960));
    actions.push(Action::EditResponse(String::from("Channel renamed successfully!")));
    assert_eq!(
        rename::run(&Stage::Rebuilding(100), &Event::Directory(directory()), &invocation, &config()),
        Step { next: Stage::Finished, actions, failure: None }
    );
}

#[test]
fn rename_refusals() {
    let config = config();
    assert_eq!(
        rename::run(&Stage::Invoked, &Event::Start, &invocation(100, vec![MANAGER], Some("beta")), &config),
        refusal("You don't have permission to use this command!")
    );
    for channel_id in [LOG, LIST, 999] {
        assert_eq!(
            rename::run(
                &Stage::Checking,
                &Event::Directory(directory()),
                &invocation(channel_id, vec![SPECIAL], Some("beta")),
                &config
            ),
            refusal("This channel was not created by the bot and cannot be renamed!")
        );
    }
    for argument in [None, Some("")] {
        assert_eq!(
            rename::run(
                &Stage::Checking,
                &Event::Directory(directory()),
                &invocation(100, vec![SPECIAL], argument),
                &config
            ),
            refusal("Channel name not valid!")
        );
    }
    assert_eq!(
        rename::run(
            &Stage::Checking,
            &Event::Directory(Directory::Detached),
            &invocation(100, vec![SPECIAL], Some("beta")),
            &config
        ),
        refusal("This channel was not created by the bot and cannot be renamed!")
    );
}

#[test]
fn rename_failures() {
    let config = config();
    let invocation = invocation(100, vec![SPECIAL], Some("beta"));
    let unreadable = Event::Directory(Directory::Unreadable(String::from("gone")));
    assert_eq!(rename::run(&Stage::Checking, &unreadable, &invocation, &config), failure("gone"));
    assert_eq!(rename::run(&Stage::Rebuilding(100), &unreadable, &invocation, &config), failure("gone"));
    assert_eq!(
        rename::run(&Stage::Checking, &Event::Failed(String::from("denied")), &invocation, &config),
        failure("denied")
    );
    assert_eq!(
        rename::run(&Stage::Rebuilding(100), &Event::Failed(String::from("denied")), &invocation, &config),
        failure("denied")
    );
    assert_eq!(
        rename::run(&Stage::Creating, &Event::Created(1), &invocation, &config),
        failure("The platform answered out of turn")
    );
    assert_eq!(rename::run(&Stage::Finished, &Event::Done, &invocation, &config), rest());
}

#[test]
fn description_sets_the_topic() {
    let invocation = invocation(100, vec![SPECIAL], Some("about cats"));
    assert_eq!(
        description::run(&Stage::Invoked, &Event::Start, &invocation, &config()),
        Step { next: Stage::Checking, actions: vec![Action::ReadDirectory], failure: None }
    );
    let mut actions = vec![
        Action::Respond(String::from("Updating description...")),
        Action::SetTopic { channel_id: 100, topic: String::from("about cats") },
    ];
    actions.extend(rebuild());
    assert_eq!(
        description::run(&Stage::Checking, &Event::Directory(directory()), &invocation, &config()),
        Step { next: Stage::Rebuilding(100), actions, failure: None }
    );
    let mut actions = index();
    actions.push(log("<#100> description updated by <@500>", 16776960));
    actions.push(Action::EditResponse(String::from("Description updated successfully!")));
    assert_eq!(
        description::run(&Stage::Rebuilding(100), &Event::Directory(directory()), &invocation, &config()),
        Step { next: Stage::Finished, actions, failure: None }
    );
}

#[test]
fn description_left_out_or_empty_clears_the_topic() {
    for argument in [None, Some("")] {
        let step = description::run(
            &Stage::Checking,
            &Event::Directory(directory()),
            &invocation(101, vec![SPECIAL], argument),
            &config(),
        );
        assert_eq!(step.next, Stage::Rebuilding(101));
        assert_eq!(step.actions[1], Action::SetTopic { channel_id: 101, topic: String::new() });
    }
}

#[test]
fn description_refusals() {
    let config = config();
    assert_eq!(
        description::run(&Stage::Invoked, &Event::Start, &invocation(100, vec![], Some("x")), &config),
        refusal("You do not have permission to use this command!")
    );
    assert_eq!(
        description::run(
            &Stage::Checking,
            &Event::Directory(directory()),
            &invocation(LIST, vec![SPECIAL], Some("x")),
            &config
        ),
        refusal("This channel was not created by the bot!")
    );
    assert_eq!(
        description::run(&Stage::Creating, &Event::Done, &invocation(100, vec![SPECIAL], None), &config),
        failure("The platform answered out of turn")
    );
    assert_eq!(
        description::run(
            &Stage::Checking,
            &Event::Failed(String::from("denied")),
            &invocation(100, vec![SPECIAL], None),
            &config
        ),
        failure("denied")
    );
}

#[test]
fn delete_deletes_then_rebuilds_then_logs() {
    let invocation = invocation(101, vec![SPECIAL], None);
    assert_eq!(
        delete::run(&Stage::Invoked, &Event::Start, &invocation, &config()),
        Step { next: Stage::Checking, actions: vec![Action::ReadDirectory], failure: None }
    );
    let mut actions = vec![
        Action::Respond(String::from("Deleting channel...")),
        Action::DeleteChannel { channel_id: 101 },
    ];
    actions.extend(rebuild());
    let retiring = Stage::Retiring { channel_id: 101, name: String::from("zeta") };
    assert_eq!(
        delete::run(&Stage::Checking, &Event::Directory(directory()), &invocation, &config()),
        Step { next: retiring.clone(), actions, failure: None }
    );
    let after = Directory::Community(vec![text(100, "alpha", 901), text(LOG, "log", 0)]);
    assert_eq!(
        delete::run(&retiring, &Event::Directory(after), &invocation, &config()),
        Step {
            next: Stage::Finished,
            actions: vec![
                Action::Send(Embed {
                    channel_id: LIST,
                    description: String::from("<#100> by <@901>"),
                    color: 5814783,
                }),
                log("[zeta] deleted by <@500>\n", 15158332),
            ],
            failure: None,
        }
    );
}

#[test]
fn delete_keeps_the_name_that_the_channel_had() {
    let invocation = invocation(100, vec![SPECIAL], None);
    let step = delete::run(&Stage::Checking, &Event::Directory(directory()), &invocation, &config());
    assert_eq!(step.next, Stage::Retiring { channel_id: 100, name: String::from("alpha") });
    let gone = Directory::Community(Vec::new());
    let last = delete::run(&step.next, &Event::Directory(gone), &invocation, &config());
    assert_eq!(last.actions, vec![log("[alpha] deleted by <@500>\n", 15158332)]);
}

#[test]
fn delete_that_fails_tells_the_log_nothing() {
    let invocation = invocation(101, vec![SPECIAL], None);
    let retiring = Stage::Retiring { channel_id: 101, name: String::from("zeta") };
    assert_eq!(
        delete::run(&retiring, &Event::Failed(String::from("Missing Permissions")), &invocation, &config()),
        failure("Missing Permissions")
    );
    let unreadable = Event::Directory(Directory::Unreadable(String::from("gone")));
    assert_eq!(delete::run(&retiring, &unreadable, &invocation, &config()), failure("gone"));
    assert_eq!(
        delete::run(&retiring, &Event::Done, &invocation, &config()),
        failure("The platform answered out of turn")
    );
}

#[test]
fn delete_refusals_and_failures() {
    let config = config();
    assert_eq!(
        delete::run(&Stage::Invoked, &Event::Start, &invocation(101, vec![MANAGER], None), &config),
        refusal("You don't have permission to use this command!")
    );
    assert_eq!(
        delete::run(
            &Stage::Checking,
            &Event::Directory(directory()),
            &invocation(LOG, vec![SPECIAL], None),
            &config
        ),
        refusal("This channel was not created by the bot and cannot be deleted!")
    );
    let unreadable = Event::Directory(Directory::Unreadable(String::from("gone")));
    assert_eq!(
        delete::run(&Stage::Checking, &unreadable, &invocation(101, vec![SPECIAL], None), &config),
        failure("gone")
    );
    assert_eq!(
        delete::run(
            &Stage::Rebuilding(101),
            &Event::Failed(String::from("denied")),
            &invocation(101, vec![SPECIAL], None),
            &config
        ),
        failure("The platform answered out of turn")
    );
    assert_eq!(
        delete::run(&Stage::Creating, &Event::Done, &invocation(101, vec![SPECIAL], None), &config),
        failure("The platform answered out of turn")
    );
    let mut stranger = invocation(101, vec![SPECIAL], None);
    stranger.member = None;
    assert_eq!(
        delete::run(&Stage::Invoked, &Event::Start, &stranger, &config),
        failure("Unable to get member data")
    );
}

#[test]
fn updatelist_is_for_managers_only() {
    let config = config();
    let mut actions = vec![Action::Respond(String::from("Rebuilding the list..."))];
    actions.extend(rebuild());
    assert_eq!(
        updatelist::run(&Stage::Invoked, &Event::Start, &invocation(1, vec![MANAGER], None), &config),
        Step { next: Stage::Rebuilding(LIST), actions, failure: None }
    );
    assert_eq!(
        updatelist::run(&Stage::Invoked, &Event::Start, &invocation(1, vec![SPECIAL], None), &config),
        refusal("Only managers can use this command!")
    );
    let mut stranger = invocation(1, vec![MANAGER], None);
    stranger.member = None;
    assert_eq!(
        updatelist::run(&Stage::Invoked, &Event::Start, &stranger, &config),
        failure("Unable to get member data")
    );
}

#[test]
fn updatelist_ends_with_index_log_and_confirmation() {
    let invocation = invocation(1, vec![MANAGER], None);
    let mut actions = index();
    actions.push(log("<#12> updated by <@500>", 5814783));
    actions.push(Action::EditResponse(String::from("Channel list successfully rebuilt!")));
    assert_eq!(
        updatelist::run(&Stage::Rebuilding(LIST), &Event::Directory(directory()), &invocation, &config()),
        Step { next: Stage::Finished, actions, failure: None }
    );
    assert_eq!(
        updatelist::run(&Stage::Checking, &Event::Done, &invocation, &config()),
        failure("The platform answered out of turn")
    );
    assert_eq!(
        updatelist::run(&Stage::Creating, &Event::Done, &invocation, &config()),
        failure("The platform answered out of turn")
    );
    assert_eq!(
        updatelist::run(&Stage::Rebuilding(LIST), &Event::Failed(String::from("denied")), &invocation, &config()),
        failure("denied")
    );
}

#[test]
fn retiring_is_a_stage_of_delete_only() {
    let invocation = invocation(100, vec![SPECIAL, MANAGER], Some("x"));
    let retiring = Stage::Retiring { channel_id: 100, name: String::from("alpha") };
    for command in [Command::Create, Command::Rename, Command::Description, Command::UpdateList] {
        assert_eq!(
            step_of(command, &retiring, &Event::Directory(directory()), &invocation, &config()),
            failure("The platform answered out of turn")
        );
    }
}

#[test]
fn can_serve_asks_for_the_identifiers_that_the_command_needs() {
    let full = config();
    for command in [Command::Create, Command::Delete, Command::Rename, Command::Description, Command::UpdateList] {
        assert!(can_serve(&full, command));
    }
    let mut no_manager = config();
    no_manager.manager_role_id = 0;
    assert!(can_serve(&no_manager, Command::Create));
    assert!(can_serve(&no_manager, Command::Delete));
    assert!(!can_serve(&no_manager, Command::UpdateList));
    let mut no_special = config();
    no_special.special_role_id = 0;
    assert!(!can_serve(&no_special, Command::Rename));
    assert!(!can_serve(&no_special, Command::Description));
    assert!(can_serve(&no_special, Command::UpdateList));
    for field in 0..3 {
        let mut broken = config();
        match field {
            0 => broken.category_id = 0,
            1 => broken.log_channel_id = 0,
            _ => broken.list_channel_id = 0,
        }
        assert!(!broken.has_channels());
        for command in [Command::Create, Command::Delete, Command::Rename, Command::Description, Command::UpdateList] {
            assert!(!can_serve(&broken, command));
        }
    }
    assert!(full.has_channels());
    assert!(no_manager.has_channels());
}

#[test]
fn try_interaction_decides_nothing_without_the_identifiers() {
    let invocation = invocation(100, vec![SPECIAL], Some("beta"));
    let mut broken = config();
    broken.list_channel_id = 0;
    assert_eq!(try_interaction_create("rename", &Stage::Invoked, &Event::Start, &invocation, &broken), None);
    assert_eq!(
        try_interaction_create("purge", &Stage::Invoked, &Event::Start, &invocation, &broken),
        Some(rest())
    );
    assert_eq!(
        try_interaction_create("rename", &Stage::Invoked, &Event::Start, &invocation, &config()),
        Some(interaction_create("rename", &Stage::Invoked, &Event::Start, &invocation, &config()))
    );
    let mut no_manager = config();
    no_manager.manager_role_id = 0;
    assert_eq!(try_interaction_create("updatelist", &Stage::Invoked, &Event::Start, &invocation, &no_manager), None);
    assert_eq!(
        try_interaction_create("delete", &Stage::Invoked, &Event::Start, &invocation, &no_manager),
        Some(Step { next: Stage::Checking, actions: vec![Action::ReadDirectory], failure: None })
    );
}

#[test]
fn finished_actions_rest() {
    let invocation = invocation(100, vec![SPECIAL, MANAGER], Some("x"));
    for command in [Command::Create, Command::Delete, Command::Rename, Command::Description, Command::UpdateList] {
        assert_eq!(step_of(command, &Stage::Finished, &Event::Done, &invocation, &config()), rest());
    }
}

#[test]
fn finished_actions_report_a_failed_last_call() {
    let invocation = invocation(100, vec![SPECIAL, MANAGER], Some("x"));
    let failed = Event::Failed(String::from("Unknown Message"));
    for command in [Command::Create, Command::Delete, Command::Rename, Command::Description, Command::UpdateList] {
        assert_eq!(step_of(command, &Stage::Finished, &failed, &invocation, &config()), failure("Unknown Message"));
    }
    assert_eq!(end(&failed), failure("Unknown Message"));
    assert_eq!(end(&Event::Done), rest());
    assert_eq!(end(&Event::Created(3)), rest());
}

#[test]
fn step_of_runs_the_command() {
    let invocation = invocation(100, vec![SPECIAL], Some("beta"));
    assert_eq!(
        step_of(Command::Rename, &Stage::Checking, &Event::Directory(directory()), &invocation, &config()),
        rename::run(&Stage::Checking, &Event::Directory(directory()), &invocation, &config())
    );
    assert_eq!(
        step_of(Command::Create, &Stage::Invoked, &Event::Start, &invocation, &config()),
        create::run(&Stage::Invoked, &Event::Start, &invocation, &config())
    );
}

#[test]
fn interaction_reports_failures_to_the_invoker() {
    let invocation = invocation(100, vec![SPECIAL], Some("beta"));
    let step = interaction_create(
        "rename",
        &Stage::Rebuilding(100),
        &Event::Failed(String::from("Missing Access")),
        &invocation,
        &config(),
    );
    assert_eq!(
        step,
        Step {
            next: Stage::Finished,
            actions: vec![Action::Respond(String::from("Error: Missing Access"))],
            failure: Some(PlatformError { cause: String::from("Missing Access") }),
        }
    );
}

#[test]
fn interaction_passes_other_steps_on() {
    let invocation = invocation(100, vec![], Some("beta"));
    assert_eq!(
        interaction_create("delete", &Stage::Invoked, &Event::Start, &invocation, &config()),
        refusal("You don't have permission to use this command!")
    );
}

#[test]
fn interaction_with_unknown_command_does_nothing() {
    let invocation = invocation(100, vec![SPECIAL], Some("beta"));
    assert_eq!(interaction_create("purge", &Stage::Invoked, &Event::Start, &invocation, &config()), rest());
}
