use managed_channels::ownership::{
    decode_owner, encode_owner, marks_owner, Overwrite, OverwriteTarget, CREATE_PUBLIC_THREADS,
    MANAGE_CHANNELS, SEND_MESSAGES, UNKNOWN_CREATOR, VIEW_CHANNEL,
};
use serenity::model::Permissions;

fn member(id: u64, allow: u64) -> Overwrite {
    Overwrite { allow, deny: 0, target: OverwriteTarget::Member(id) }
}

fn role(id: u64, allow: u64) -> Overwrite {
    Overwrite { allow, deny: 0, target: OverwriteTarget::Role(id) }
}

#[test]
fn rights_are_the_platforms_flags() {
    assert_eq!(MANAGE_CHANNELS, Permissions::MANAGE_CHANNELS.bits());
    assert_eq!(VIEW_CHANNEL, Permissions::VIEW_CHANNEL.bits());
    assert_eq!(SEND_MESSAGES, Permissions::SEND_MESSAGES.bits());
    assert_eq!(CREATE_PUBLIC_THREADS, Permissions::CREATE_PUBLIC_THREADS.bits());
    assert_eq!(MANAGE_CHANNELS, 16);
    assert_eq!(VIEW_CHANNEL, 1024);
    assert_eq!(SEND_MESSAGES, 2048);
    assert_eq!(CREATE_PUBLIC_THREADS, 34359738368);
}

#[test]
fn encode_owner_writes_creator_and_everyone() {
    let acl = encode_owner(11, 22);
    assert_eq!(
        acl,
        vec![
            Overwrite { allow: 0xC10, deny: 0, target: OverwriteTarget::Member(11) },
            Overwrite { allow: 0x8_0000_0400, deny: 0x800, target: OverwriteTarget::Role(22) },
        ]
    );
}

#[test]
fn encode_owner_agrees_with_the_platforms_sets() {
    let acl = encode_owner(5, 6);
    let creator = Permissions::VIEW_CHANNEL | Permissions::SEND_MESSAGES | Permissions::MANAGE_CHANNELS;
    let everyone = Permissions::VIEW_CHANNEL | Permissions::CREATE_PUBLIC_THREADS;
    assert_eq!(acl[0].allow, creator.bits());
    assert_eq!(acl[0].deny, Permissions::empty().bits());
    assert_eq!(acl[1].allow, everyone.bits());
    assert_eq!(acl[1].deny, Permissions::SEND_MESSAGES.bits());
}

#[test]
fn everyone_may_read_and_thread_but_not_post() {
    let acl = encode_owner(5, 6);
    let everyone = &acl[1];
    assert_eq!(everyone.target, OverwriteTarget::Role(6));
    assert_eq!(everyone.allow & VIEW_CHANNEL, VIEW_CHANNEL);
    assert_eq!(everyone.allow & CREATE_PUBLIC_THREADS, CREATE_PUBLIC_THREADS);
    assert_eq!(everyone.allow & MANAGE_CHANNELS, 0);
    assert_eq!(everyone.deny & SEND_MESSAGES, SEND_MESSAGES);
}

#[test]
fn owner_round_trip() {
    for creator in [1u64, 2, 42, 1 << 40, u64::MAX] {
        for guild in [1u64, 99, u64::MAX] {
            assert_eq!(decode_owner(&encode_owner(creator, guild)), creator);
        }
    }
}

#[test]
fn owner_round_trip_where_creator_and_guild_share_an_identifier() {
    assert_eq!(decode_owner(&encode_owner(77, 77)), 77);
}

#[test]
fn decode_owner_of_empty_list_is_unknown() {
    assert_eq!(UNKNOWN_CREATOR, 0);
    assert_eq!(decode_owner(&Vec::new()), UNKNOWN_CREATOR);
}

#[test]
fn decode_owner_without_elevated_member_is_unknown() {
    let acl = vec![
        member(7, VIEW_CHANNEL | SEND_MESSAGES),
        role(8, MANAGE_CHANNELS),
        member(9, 0),
    ];
    assert_eq!(decode_owner(&acl), UNKNOWN_CREATOR);
}

#[test]
fn decode_owner_skips_roles_that_manage() {
    let acl = vec![role(8, MANAGE_CHANNELS | VIEW_CHANNEL), member(9, MANAGE_CHANNELS)];
    assert_eq!(decode_owner(&acl), 9);
}

#[test]
fn decode_owner_takes_the_first_of_several() {
    let acl = vec![
        member(3, VIEW_CHANNEL),
        member(7, MANAGE_CHANNELS),
        member(9, MANAGE_CHANNELS | VIEW_CHANNEL),
    ];
    assert_eq!(decode_owner(&acl), 7);
    let turned = vec![
        member(9, MANAGE_CHANNELS | VIEW_CHANNEL),
        member(7, MANAGE_CHANNELS),
    ];
    assert_eq!(decode_owner(&turned), 9);
}

#[test]
fn decode_owner_ignores_what_is_denied() {
    let acl = vec![
        Overwrite { allow: 0, deny: MANAGE_CHANNELS, target: OverwriteTarget::Member(4) },
        Overwrite { allow: MANAGE_CHANNELS, deny: MANAGE_CHANNELS, target: OverwriteTarget::Member(5) },
    ];
    assert_eq!(decode_owner(&acl), 5);
}

#[test]
fn marks_owner_needs_a_member_with_the_right() {
    assert!(marks_owner(&member(1, MANAGE_CHANNELS)));
    assert!(marks_owner(&member(1, u64::MAX)));
    assert!(marks_owner(&member(1, MANAGE_CHANNELS | VIEW_CHANNEL)));
    assert!(!marks_owner(&member(1, 0)));
    assert!(!marks_owner(&member(1, !MANAGE_CHANNELS)));
    assert!(!marks_owner(&member(1, VIEW_CHANNEL | SEND_MESSAGES)));
    assert!(!marks_owner(&role(1, MANAGE_CHANNELS)));
    assert!(!marks_owner(&role(1, u64::MAX)));
}
