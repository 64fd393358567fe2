use fuser::acl::SessionACL;
use fuser::error::{Error, ErrorKind};
use fuser::fuse_args::{fuse_arguments, is_representable, with_fuse_args};
use fuser::mount_options::{
    conflicts_with, contains_option, option_debug, option_group, option_to_flag,
    option_to_string, same_option, validate_config, AclRequestIdentity, Config,
    MountFlag, MountOption, MountOptionGroup,
};
use fuser::session::validate_mounted_session_config;
use fuser::target::{MountBackend, Os, Target};

const LINUX: Target = Target { os: Os::Linux, backend: MountBackend::PureRust };
const MAC_FUSE2: Target = Target { os: Os::Macos, backend: MountBackend::Libfuse2 };

fn config(mount_options: Vec<MountOption>) -> Config {
    let mut config = Config::default();
    config.mount_options = mount_options;
    config
}

fn every_option() -> Vec<MountOption> {
    vec![
        MountOption::FSName("Blah".to_owned()),
        MountOption::Subtype("Bloo".to_owned()),
        MountOption::CUSTOM("bongos".to_owned()),
        MountOption::MacFsKit,
        MountOption::AutoUnmount,
        MountOption::DefaultPermissions,
        MountOption::Dev,
        MountOption::NoDev,
        MountOption::Suid,
        MountOption::NoSuid,
        MountOption::RO,
        MountOption::RW,
        MountOption::Exec,
        MountOption::NoExec,
        MountOption::Atime,
        MountOption::NoAtime,
        MountOption::DirSync,
        MountOption::Sync,
        MountOption::Async,
    ]
}

#[test]
fn option_validation() {
    assert!(validate_config(&config(vec![MountOption::Suid, MountOption::NoSuid]), LINUX).is_err());
    assert_eq!(
        validate_config(&config(vec![MountOption::Suid, MountOption::NoExec]), LINUX).unwrap(),
        AclRequestIdentity::Direct
    );
}

#[test]
fn mac_fskit_requires_typed_transport_selection() {
    for target in [LINUX, MAC_FUSE2] {
        for value in [
            "backend=fskit",
            "backend=fskit,foo",
            "foo,backend=fskit",
            "foo,backend=fskit,bar",
        ] {
            let error =
                validate_config(&config(vec![MountOption::CUSTOM(value.to_owned())]), target)
                    .unwrap_err();
            assert_eq!(error.kind(), Some(ErrorKind::InvalidInput));
        }

        for value in ["xbackend=fskit", "backend=fskitx", "backend=fskit=1"] {
            assert_eq!(
                validate_config(&config(vec![MountOption::CUSTOM(value.to_owned())]), target)
                    .unwrap(),
                AclRequestIdentity::Direct
            );
        }

        let result = validate_config(&config(vec![MountOption::MacFsKit]), target);
        if target == MAC_FUSE2 {
            assert_eq!(result.unwrap(), AclRequestIdentity::MacFsKitRootProxy);
        } else {
            assert_eq!(result.unwrap_err().kind(), Some(ErrorKind::InvalidInput));
        }
    }
}

#[test]
fn mac_fskit_root_proxy_only_changes_owner_acl_comparison() {
    let owner: u32 = 501;
    let root: u32 = 0;
    let other: u32 = 502;

    assert!(AclRequestIdentity::Direct.matches_owner_acl(owner, owner));
    assert!(!AclRequestIdentity::Direct.matches_owner_acl(root, owner));
    assert!(AclRequestIdentity::MacFsKitRootProxy.matches_owner_acl(root, owner));
    assert!(AclRequestIdentity::MacFsKitRootProxy.matches_owner_acl(owner, owner));
    assert!(!AclRequestIdentity::MacFsKitRootProxy.matches_owner_acl(other, owner));
    assert_eq!((root, other), (0, 502));
}

#[test]
fn option_round_trip() {
    for x in &every_option() {
        assert_eq!(*x, MountOption::from_str(option_to_string(x).as_ref()));
    }
}

#[test]
fn fuse_args() {
    with_fuse_args(
        &vec![MountOption::CUSTOM("foo".into()), MountOption::CUSTOM("bar".into())],
        SessionACL::RootAndOwner,
        |args: Vec<String>| {
            assert_eq!(*args, ["rust-fuse", "-o", "foo", "-o", "bar", "-o", "allow_other"]);
        },
    );
}

#[test]
fn mac_fskit_mount_argument_is_owner_only() {
    with_fuse_args(&vec![MountOption::MacFsKit], SessionACL::Owner, |args: Vec<String>| {
        assert_eq!(*args, ["rust-fuse", "-o", "backend=fskit"]);
    });
}

#[test]
fn unknown_texts_become_custom_options_and_keep_their_text() {
    for text in ["", "fsname", "ROO", "ro ", "max_read=5", "nosuid,nodev"] {
        let option = MountOption::from_str(text);
        assert_eq!(option, MountOption::CUSTOM(text.to_owned()));
        assert_eq!(option_to_string(&option), text);
    }
}

#[test]
fn prefixed_texts_keep_what_follows() {
    assert_eq!(MountOption::from_str("fsname=a=b"), MountOption::FSName("a=b".to_owned()));
    assert_eq!(MountOption::from_str("fsname="), MountOption::FSName(String::new()));
    assert_eq!(MountOption::from_str("subtype=x y"), MountOption::Subtype("x y".to_owned()));
}

#[test]
fn text_round_trip_holds_for_every_text() {
    for text in ["auto_unmount", "fsname=x", "subtype=", "ro", "é=1", "backend=fskit", "dirsync"] {
        assert_eq!(option_to_string(&MountOption::from_str(text)), text);
    }
}

#[test]
fn conflicts_are_mutual() {
    let all = every_option();
    for a in &all {
        for b in &all {
            assert_eq!(
                contains_option(&conflicts_with(a), b),
                contains_option(&conflicts_with(b), a)
            );
        }
    }
    assert_eq!(conflicts_with(&MountOption::RO), vec![MountOption::RW]);
    assert_eq!(conflicts_with(&MountOption::DirSync), vec![]);
}

#[test]
fn conflict_message_names_what_is_in_conflict() {
    let options = vec![
        MountOption::Suid,
        MountOption::FSName("n".to_owned()),
        MountOption::NoSuid,
        MountOption::RO,
        MountOption::RW,
    ];
    assert_eq!(
        validate_config(&config(options), LINUX),
        Err(Error::Custom {
            kind: ErrorKind::InvalidInput,
            message: "Conflicting mount options found: [Suid, NoSuid, RO, RW]".to_owned(),
        })
    );
}

#[test]
fn fewer_options_stay_valid() {
    let all = vec![MountOption::RO, MountOption::NoSuid, MountOption::Sync];
    assert!(validate_config(&config(all.clone()), LINUX).is_ok());
    for skipped in 0..all.len() {
        let mut fewer = all.clone();
        fewer.remove(skipped);
        assert!(validate_config(&config(fewer), LINUX).is_ok());
    }
}

#[test]
fn validation_errors_say_what_is_wrong() {
    assert_eq!(
        validate_config(&config(vec![MountOption::CUSTOM("a,backend=fskit".to_owned())]), LINUX),
        Err(Error::new(
            ErrorKind::InvalidInput,
            "backend=fskit must use MountOption::MacFsKit"
        ))
    );
    assert_eq!(
        validate_config(&config(vec![MountOption::MacFsKit]), LINUX),
        Err(Error::new(
            ErrorKind::InvalidInput,
            "MountOption::MacFsKit requires the macOS libfuse2 mount path"
        ))
    );
}

#[test]
fn auto_unmount_needs_more_than_the_owner() {
    let mut options = config(vec![MountOption::AutoUnmount]);
    assert_eq!(
        validate_mounted_session_config(&options, LINUX),
        Err(Error::new(
            ErrorKind::InvalidInput,
            "auto_unmount requires acl != Owner, got: Owner"
        ))
    );
    assert!(validate_config(&options, LINUX).is_ok());
    options.acl = SessionACL::All;
    assert_eq!(
        validate_mounted_session_config(&options, LINUX),
        Ok(AclRequestIdentity::Direct)
    );
    options.acl = SessionACL::RootAndOwner;
    assert!(validate_mounted_session_config(&options, LINUX).is_ok());
}

#[test]
fn debug_format_is_that_of_the_derived_one() {
    let mut all = every_option();
    all.push(MountOption::FSName("a \"quoted\"\n\u{7f}\u{e9}".to_owned()));
    for option in &all {
        assert_eq!(option_debug(option), format!("{:?}", option));
    }
}

#[test]
fn same_option_is_the_derived_equality() {
    let all = every_option();
    for a in &all {
        for b in &all {
            assert_eq!(same_option(a, b), a == b);
        }
    }
    assert!(!same_option(
        &MountOption::CUSTOM("a".to_owned()),
        &MountOption::FSName("a".to_owned())
    ));
}

#[test]
fn linux_mount_flags() {
    for (option, flag) in [
        (MountOption::Dev, MountFlag::Empty),
        (MountOption::RO, MountFlag::RdOnly),
        (MountOption::NoSuid, MountFlag::NoSuid),
        (MountOption::NoDev, MountFlag::NoDev),
        (MountOption::NoExec, MountFlag::NoExec),
        (MountOption::Sync, MountFlag::Synchronous),
        (MountOption::DirSync, MountFlag::DirSync),
        (MountOption::NoAtime, MountFlag::NoAtime),
        (MountOption::Async, MountFlag::Empty),
    ] {
        assert_eq!(option_to_flag(&option, Os::Linux), Ok(flag));
    }
    assert_eq!(
        option_to_flag(&MountOption::FSName("x".to_owned()), Os::Linux),
        Err(Error::new(
            ErrorKind::InvalidInput,
            "Invalid mount option for flag conversion: FSName(\"x\")"
        ))
    );
}

#[test]
fn mount_flags_of_other_systems() {
    assert_eq!(option_to_flag(&MountOption::Async, Os::FreeBsd), Ok(MountFlag::Async));
    assert_eq!(option_to_flag(&MountOption::DirSync, Os::OpenBsd), Ok(MountFlag::Synchronous));
    assert_eq!(
        option_to_flag(&MountOption::NoDev, Os::FreeBsd),
        Err(Error::new(ErrorKind::Unsupported, "NoDev option is not supported on FreeBSD"))
    );
    assert_eq!(
        option_to_flag(&MountOption::DirSync, Os::Macos),
        Err(Error::new(
            ErrorKind::InvalidInput,
            "Invalid mount option for flag conversion: DirSync"
        ))
    );
}

#[test]
fn kernel_flags_are_those_with_a_flag() {
    for option in &every_option() {
        assert_eq!(
            option_group(option) == MountOptionGroup::KernelFlag,
            option_to_flag(option, Os::Linux).is_ok()
        );
    }
    assert_eq!(option_group(&MountOption::AutoUnmount), MountOptionGroup::Fusermount);
    assert_eq!(option_group(&MountOption::MacFsKit), MountOptionGroup::KernelOption);
}

#[test]
fn arguments_come_in_pairs_behind_the_name() {
    let options = vec![MountOption::RO, MountOption::FSName("x".to_owned())];
    assert_eq!(
        fuse_arguments(&options, SessionACL::All),
        ["rust-fuse", "-o", "ro", "-o", "fsname=x", "-o", "allow_other"]
    );
    assert_eq!(fuse_arguments(&vec![], SessionACL::Owner), ["rust-fuse"]);
}

#[test]
fn null_characters_cannot_be_handed_over() {
    assert!(is_representable(&every_option()));
    assert!(!is_representable(&vec![MountOption::CUSTOM("a\0b".to_owned())]));
}

#[test]
fn access_lists_map_to_one_option() {
    assert_eq!(SessionACL::default(), SessionACL::Owner);
    assert_eq!(SessionACL::All.to_mount_option(), Some("allow_other"));
    assert_eq!(SessionACL::RootAndOwner.to_mount_option(), Some("allow_other"));
    assert_eq!(SessionACL::Owner.to_mount_option(), None);
}

#[test]
fn neither_order_nor_repetition_of_options_matters() {
    let once = vec![MountOption::RO, MountOption::NoDev, MountOption::MacFsKit];
    let mixed = vec![
        MountOption::MacFsKit,
        MountOption::NoDev,
        MountOption::RO,
        MountOption::NoDev,
        MountOption::RO,
    ];
    for target in [LINUX, MAC_FUSE2] {
        assert_eq!(
            validate_config(&config(once.clone()), target),
            validate_config(&config(mixed.clone()), target)
        );
    }
}

#[test]
fn one_of_two_opposites_has_a_flag() {
    for option in &every_option() {
        for opposite in &conflicts_with(option) {
            let flag = option_to_flag(option, Os::Linux).unwrap();
            let other = option_to_flag(opposite, Os::Linux).unwrap();
            assert_eq!(flag == MountFlag::Empty, other != MountFlag::Empty);
        }
    }
}
