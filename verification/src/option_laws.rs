//! What holds of mount options as a whole.

use vstd::prelude::*;

use crate::error::{ErrorKind, ErrorView};
use crate::mount_options::{
    any_conflict, conflict_list, conflicts, debug_items, debug_list, debug_text, flag_of,
    fskit_by_text, group_of, in_conflict, keyword, opposite, option_of_text, option_text,
    validation, AclRequestIdentity, MountFlag, MountOptionGroup, OptionView,
};
use crate::target::{Os, Target};
use crate::text::{
    has_piece, law_pieces_stand_between_separators, law_prefixes, stands_between, starts_with,
};

verus! {

/// Makes the characters of the texts of the options known.
proof fn lemma_texts()
    ensures
        forall|name: Seq<char>| keyword(#[trigger] ("fsname="@ + name)) is None,
        forall|name: Seq<char>| starts_with(#[trigger] ("fsname="@ + name), "fsname="@),
        forall|name: Seq<char>| keyword(#[trigger] ("subtype="@ + name)) is None,
        forall|name: Seq<char>| starts_with(#[trigger] ("subtype="@ + name), "subtype="@),
        forall|name: Seq<char>| !starts_with(#[trigger] ("subtype="@ + name), "fsname="@),
        "fsname="@.len() == 7,
        "subtype="@.len() == 8,
{
    reveal_strlit("fsname=");
    reveal_strlit("subtype=");
    lemma_keyword_heads();
    assert forall|name: Seq<char>| keyword(#[trigger] ("fsname="@ + name)) is None by {
        let text = "fsname="@ + name;
        assert(text[0] == 'f');
    }
    assert forall|name: Seq<char>| starts_with(#[trigger] ("fsname="@ + name), "fsname="@) by {
        assert(("fsname="@ + name).subrange(0, 7) =~= "fsname="@);
    }
    assert forall|name: Seq<char>| keyword(#[trigger] ("subtype="@ + name)) is None by {
        let text = "subtype="@ + name;
        assert(text[0] == 's' && text[2] == 'b');
    }
    assert forall|name: Seq<char>| starts_with(#[trigger] ("subtype="@ + name), "subtype="@) by {
        assert(("subtype="@ + name).subrange(0, 8) =~= "subtype="@);
    }
    assert forall|name: Seq<char>| !starts_with(#[trigger] ("subtype="@ + name), "fsname="@) by {
        let text = "subtype="@ + name;
        assert(text[0] == 's');
        if starts_with(text, "fsname="@) {
            assert(text.subrange(0, 7)[0] == 'f');
        }
    }
}

/// No text that stands for an option without a parameter starts as a text with one does.
proof fn lemma_keyword_heads()
    ensures
        forall|text: Seq<char>|
            #[trigger] keyword(text) is Some ==> text.len() > 0 && text[0] != 'f' && (text.len()
                > 2 ==> text[0] != 's' || text[2] != 'b'),
{
    reveal_strlit("auto_unmount");
    reveal_strlit("default_permissions");
    reveal_strlit("dev");
    reveal_strlit("nodev");
    reveal_strlit("suid");
    reveal_strlit("nosuid");
    reveal_strlit("ro");
    reveal_strlit("rw");
    reveal_strlit("exec");
    reveal_strlit("noexec");
    reveal_strlit("atime");
    reveal_strlit("noatime");
    reveal_strlit("dirsync");
    reveal_strlit("sync");
    reveal_strlit("async");
    reveal_strlit("backend=fskit");
}

/// The texts of the options without a parameter differ.
proof fn lemma_keywords_differ()
    ensures
        keyword("auto_unmount"@) == Some(OptionView::AutoUnmount),
        keyword("default_permissions"@) == Some(OptionView::DefaultPermissions),
        keyword("dev"@) == Some(OptionView::Dev),
        keyword("nodev"@) == Some(OptionView::NoDev),
        keyword("suid"@) == Some(OptionView::Suid),
        keyword("nosuid"@) == Some(OptionView::NoSuid),
        keyword("ro"@) == Some(OptionView::RO),
        keyword("rw"@) == Some(OptionView::RW),
        keyword("exec"@) == Some(OptionView::Exec),
        keyword("noexec"@) == Some(OptionView::NoExec),
        keyword("atime"@) == Some(OptionView::Atime),
        keyword("noatime"@) == Some(OptionView::NoAtime),
        keyword("dirsync"@) == Some(OptionView::DirSync),
        keyword("sync"@) == Some(OptionView::Sync),
        keyword("async"@) == Some(OptionView::Async),
        keyword("backend=fskit"@) == Some(OptionView::MacFsKit),
{
    reveal_strlit("auto_unmount");
    reveal_strlit("default_permissions");
    reveal_strlit("dev");
    reveal_strlit("nodev");
    reveal_strlit("suid");
    reveal_strlit("nosuid");
    reveal_strlit("ro");
    reveal_strlit("rw");
    reveal_strlit("exec");
    reveal_strlit("noexec");
    reveal_strlit("atime");
    reveal_strlit("noatime");
    reveal_strlit("dirsync");
    reveal_strlit("sync");
    reveal_strlit("async");
    reveal_strlit("backend=fskit");
    assert("auto_unmount"@.len() == 12);
    assert("default_permissions"@.len() == 19);
    assert("dev"@.len() == 3);
    assert("nodev"@.len() == 5);
    assert("suid"@.len() == 4);
    assert("nosuid"@.len() == 6);
    assert("ro"@.len() == 2);
    assert("rw"@.len() == 2);
    assert("exec"@.len() == 4);
    assert("noexec"@.len() == 6);
    assert("atime"@.len() == 5);
    assert("noatime"@.len() == 7);
    assert("dirsync"@.len() == 7);
    assert("sync"@.len() == 4);
    assert("async"@.len() == 5);
    assert("backend=fskit"@.len() == 13);
    // Texts of one length, by a character in which they differ.
    assert("ro"@[1] != "rw"@[1]);
    assert("suid"@[1] != "exec"@[1] && "suid"@[1] != "sync"@[1] && "exec"@[1] != "sync"@[1]);
    assert("nodev"@[1] != "atime"@[1] && "nodev"@[1] != "async"@[1] && "atime"@[1] != "async"@[1]);
    assert("nosuid"@[2] != "noexec"@[2]);
    assert("noatime"@[0] != "dirsync"@[0]);
}

/// An option is read back from its text: every option but a custom one whose text is that of
/// another option.
pub proof fn law_option_round_trip(option: OptionView)
    requires
        option matches OptionView::CUSTOM(value) ==> {
            &&& keyword(value) is None
            &&& !starts_with(value, "fsname="@)
            &&& !starts_with(value, "subtype="@)
        },
    ensures
        option_of_text(option_text(option)) == option,
{
    lemma_texts();
    match option {
        OptionView::FSName(name) => {
            let text = "fsname="@ + name;
            assert(text.subrange(7, text.len() as int) =~= name);
        },
        OptionView::Subtype(subtype) => {
            let text = "subtype="@ + subtype;
            assert(text.subrange(8, text.len() as int) =~= subtype);
        },
        OptionView::CUSTOM(_) => {},
        _ => {
            lemma_keywords_differ();
        },
    }
}

/// A text is the text of the option that it stands for: no text is lost by reading it.
pub proof fn law_text_round_trip(text: Seq<char>)
    ensures
        option_text(option_of_text(text)) == text,
{
    lemma_texts();
    if keyword(text) is None {
        if starts_with(text, "fsname="@) {
            assert("fsname="@ + text.subrange(7, text.len() as int) =~= text);
        } else if starts_with(text, "subtype="@) {
            assert("subtype="@ + text.subrange(8, text.len() as int) =~= text);
        }
    }
}

/// Two options exclude each other or neither excludes the other; none excludes itself.
pub proof fn law_conflicts_are_mutual(a: OptionView, b: OptionView)
    ensures
        conflicts(a).contains(b) <==> conflicts(b).contains(a),
        !conflicts(a).contains(a),
{
    lemma_conflicts(a, b);
    lemma_conflicts(b, a);
    lemma_conflicts(a, a);
}

proof fn lemma_conflicts(a: OptionView, b: OptionView)
    ensures
        conflicts(a).contains(b) <==> opposite(a) == Some(b),
{
    if opposite(a) is Some {
        assert(conflicts(a)[0] == opposite(a)->0);
    }
}

/// Leaving options out never makes valid options invalid.
pub proof fn law_fewer_options_stay_valid(
    some: Seq<OptionView>,
    all: Seq<OptionView>,
    target: Target,
)
    requires
        validation(all, target) is Ok,
        forall|option: OptionView| some.contains(option) ==> all.contains(option),
    ensures
        validation(some, target) is Ok,
{
    if any_conflict(some) {
        let option = choose|option: OptionView| #[trigger] in_conflict(some, option);
        let i = choose|i: int|
            0 <= i < some.len() && conflicts(#[trigger] some[i]).contains(option);
        assert(some.contains(some[i]));
        let j = choose|j: int| 0 <= j < all.len() && all[j] == some[i];
        assert(conflicts(all[j]).contains(option));
        assert(in_conflict(all, option));
    }
    if fskit_by_text(some) {
        let i = choose|i: int|
            0 <= i < some.len() && (#[trigger] some[i] matches OptionView::CUSTOM(value)
                && crate::text::has_piece(value, ',', "backend=fskit"@));
        assert(some.contains(some[i]));
        let j = choose|j: int| 0 <= j < all.len() && all[j] == some[i];
        assert(all[j] is CUSTOM);
    }
}

/// Neither the order of the options nor how often one is given decides anything: the same
/// options are accepted, and with the same identity.
pub proof fn law_validation_reads_a_set(a: Seq<OptionView>, b: Seq<OptionView>, target: Target)
    requires
        forall|option: OptionView| a.contains(option) <==> b.contains(option),
    ensures
        validation(a, target) is Ok <==> validation(b, target) is Ok,
        validation(a, target) is Ok ==> validation(a, target) == validation(b, target),
{
    if validation(a, target) is Ok {
        law_fewer_options_stay_valid(b, a, target);
    }
    if validation(b, target) is Ok {
        law_fewer_options_stay_valid(a, b, target);
    }
}

/// The FSKit backend is had by its own option on its own mount path, and in no other way.
pub proof fn law_fskit_is_selected_by_type(options: Seq<OptionView>, target: Target)
    ensures
        validation(options, target) == Ok::<_, ErrorView>(AclRequestIdentity::MacFsKitRootProxy)
            ==> options.contains(OptionView::MacFsKit) && target.darwin_channel(),
        options.contains(OptionView::MacFsKit) && !target.darwin_channel() ==> validation(
            options,
            target,
        ) is Err,
        fskit_by_text(options) ==> validation(options, target) is Err,
        validation(options, target) matches Err(error) ==> (error matches ErrorView::Custom {
            kind,
            ..
        } && kind == ErrorKind::InvalidInput),
{
}

/// The root proxy changes nothing but that root counts as the owner.
pub proof fn law_root_proxy_adds_root_alone(request_uid: u32, session_owner: u32)
    ensures
        AclRequestIdentity::MacFsKitRootProxy.is_owner(request_uid, session_owner) <==> (
        AclRequestIdentity::Direct.is_owner(request_uid, session_owner) || request_uid == 0),
        AclRequestIdentity::Direct.is_owner(request_uid, session_owner) <==> request_uid
            == session_owner,
{
}

/// The options that the kernel reads as flags are those that have a flag, but for two that
/// one system each has no flag for.
pub proof fn law_kernel_flags_have_flags(option: OptionView, os: Os)
    ensures
        flag_of(option, os) is Ok <==> {
            &&& group_of(option) == MountOptionGroup::KernelFlag
            &&& !(option is DirSync && os is Macos)
            &&& !(option is NoDev && os is FreeBsd)
        },
{
}

/// Of two options that exclude each other, one asks for Linux's default and has no flag, and
/// the other has one.
pub proof fn law_one_of_two_opposites_has_a_flag(option: OptionView)
    requires
        opposite(option) is Some,
    ensures
        flag_of(option, Os::Linux) matches Ok(flag) && (flag_of(
            opposite(option)->0,
            Os::Linux,
        ) matches Ok(other) && (flag is Empty <==> !(other is Empty))),
{
}

/// Two options ask for contrary things.
pub open spec fn contrary(a: OptionView, b: OptionView) -> bool {
    ||| a is Dev && b is NoDev
    ||| a is NoDev && b is Dev
    ||| a is Suid && b is NoSuid
    ||| a is NoSuid && b is Suid
    ||| a is RO && b is RW
    ||| a is RW && b is RO
    ||| a is Exec && b is NoExec
    ||| a is NoExec && b is Exec
    ||| a is Atime && b is NoAtime
    ||| a is NoAtime && b is Atime
    ||| a is Sync && b is Async
    ||| a is Async && b is Sync
}

/// Both options are among the options.
pub open spec fn both(options: Seq<OptionView>, a: OptionView, b: OptionView) -> bool {
    options.contains(a) && options.contains(b)
}

/// Some of the options ask for contrary things.
pub open spec fn contradictory(options: Seq<OptionView>) -> bool {
    ||| both(options, OptionView::Dev, OptionView::NoDev)
    ||| both(options, OptionView::Suid, OptionView::NoSuid)
    ||| both(options, OptionView::RO, OptionView::RW)
    ||| both(options, OptionView::Exec, OptionView::NoExec)
    ||| both(options, OptionView::Atime, OptionView::NoAtime)
    ||| both(options, OptionView::Sync, OptionView::Async)
}

/// A custom option among the options has the FSKit backend in its list.
pub open spec fn names_fskit(options: Seq<OptionView>) -> bool {
    exists|i: int|
        0 <= i < options.len() && (#[trigger] options[i] matches OptionView::CUSTOM(value)
            && lists_fskit(value))
}

/// A list with commas between its items has the FSKit backend as an item.
pub open spec fn lists_fskit(value: Seq<char>) -> bool {
    exists|before: Seq<char>, after: Seq<char>|
        #[trigger] stands_between(value, ',', before, "backend=fskit"@, after)
}

/// An option excludes exactly the one that asks for the contrary.
pub proof fn law_contrary_options_conflict(a: OptionView, b: OptionView)
    ensures
        conflicts(a).contains(b) <==> contrary(a, b),
        conflicts(a).len() <= 1,
{
    lemma_conflicts(a, b);
}

proof fn lemma_contradictions(options: Seq<OptionView>)
    ensures
        any_conflict(options) <==> contradictory(options),
        forall|option: OptionView| #[trigger]
            in_conflict(options, option) <==> options.contains(option) && exists|other: OptionView|
                #[trigger] options.contains(other) && contrary(other, option),
{
    assert forall|option: OptionView| #[trigger]
        in_conflict(options, option) <==> options.contains(option) && exists|other: OptionView|
            #[trigger] options.contains(other) && contrary(other, option) by {
        if in_conflict(options, option) {
            let i = choose|i: int|
                0 <= i < options.len() && conflicts(#[trigger] options[i]).contains(option);
            law_contrary_options_conflict(options[i], option);
            assert(options.contains(options[i]));
        }
        if options.contains(option) && exists|other: OptionView|
            #[trigger] options.contains(other) && contrary(other, option) {
            let other = choose|other: OptionView|
                #[trigger] options.contains(other) && contrary(other, option);
            law_contrary_options_conflict(other, option);
            let i = choose|i: int| 0 <= i < options.len() && options[i] == other;
            assert(conflicts(options[i]).contains(option));
        }
    }
    if any_conflict(options) {
        let option = choose|option: OptionView| #[trigger] in_conflict(options, option);
        let other = choose|other: OptionView|
            #[trigger] options.contains(other) && contrary(other, option);
        assert(both(options, option, other));
    }
    if contradictory(options) {
        if both(options, OptionView::Dev, OptionView::NoDev) {
            assert(in_conflict(options, OptionView::NoDev));
        } else if both(options, OptionView::Suid, OptionView::NoSuid) {
            assert(in_conflict(options, OptionView::NoSuid));
        } else if both(options, OptionView::RO, OptionView::RW) {
            assert(in_conflict(options, OptionView::RW));
        } else if both(options, OptionView::Exec, OptionView::NoExec) {
            assert(in_conflict(options, OptionView::NoExec));
        } else if both(options, OptionView::Atime, OptionView::NoAtime) {
            assert(in_conflict(options, OptionView::NoAtime));
        } else {
            assert(in_conflict(options, OptionView::Async));
        }
    }
}

proof fn lemma_fskit_names(options: Seq<OptionView>)
    ensures
        fskit_by_text(options) <==> names_fskit(options),
{
    reveal_strlit("backend=fskit");
    let name = "backend=fskit"@;
    assert(!name.contains(','));
    if fskit_by_text(options) {
        let i = choose|i: int|
            0 <= i < options.len() && (#[trigger] options[i] matches OptionView::CUSTOM(value)
                && has_piece(value, ',', name));
        law_pieces_stand_between_separators(options[i]->CUSTOM_0, ',', name);
        assert(options[i] is CUSTOM);
    }
    if names_fskit(options) {
        let i = choose|i: int|
            0 <= i < options.len() && (#[trigger] options[i] matches OptionView::CUSTOM(value)
                && lists_fskit(value));
        law_pieces_stand_between_separators(options[i]->CUSTOM_0, ',', name);
        assert(options[i] is CUSTOM);
    }
}

/// Options are accepted exactly if no two of them are contrary, no custom one names the FSKit
/// backend, and the option for that backend is given on macOS with libfuse 2 alone. They are
/// refused as invalid input, contrary ones first and by a message of their own. The identity is
/// the root proxy exactly for the option for FSKit.
pub proof fn law_what_is_accepted(options: Seq<OptionView>, target: Target)
    ensures
        ({
            let fskit = options.contains(OptionView::MacFsKit);
            let accepted = !contradictory(options) && !names_fskit(options) && (fskit
                ==> target.os is Macos && target.backend is Libfuse2);
            let result = validation(options, target);
            &&& result is Ok <==> accepted
            &&& result matches Ok(identity) ==> (identity is MacFsKitRootProxy <==> fskit)
            &&& contradictory(options) ==> (result matches Err(ErrorView::Custom { kind, message })
                && kind == ErrorKind::InvalidInput && starts_with(
                message,
                "Conflicting mount options found: "@,
            ))
            &&& !contradictory(options) && names_fskit(options) ==> result == Err::<
                AclRequestIdentity,
                ErrorView,
            >(
                ErrorView::Custom {
                    kind: ErrorKind::InvalidInput,
                    message: "backend=fskit must use MountOption::MacFsKit"@,
                },
            )
            &&& !contradictory(options) && !names_fskit(options) && !accepted ==> result == Err::<
                AclRequestIdentity,
                ErrorView,
            >(
                ErrorView::Custom {
                    kind: ErrorKind::InvalidInput,
                    message: "MountOption::MacFsKit requires the macOS libfuse2 mount path"@,
                },
            )
        }),
{
    lemma_contradictions(options);
    lemma_fskit_names(options);
    law_prefixes(
        seq![],
        "Conflicting mount options found: "@,
        debug_list(conflict_list(options, options.len())),
    );
}

/// The options that a conflict is reported with are those that have a contrary one among the
/// options, each once, in the order in which they come first.
pub proof fn law_conflicts_are_listed(options: Seq<OptionView>)
    ensures
        ({
            let list = conflict_list(options, options.len());
            &&& forall|option: OptionView| #[trigger]
                list.contains(option) <==> options.contains(option) && exists|other: OptionView|
                    #[trigger] options.contains(other) && contrary(other, option)
            &&& forall|i: int, j: int|
                0 <= i < j < list.len() ==> #[trigger] list[i] != #[trigger] list[j]
            &&& forall|i: int, j: int|
                0 <= i < j < list.len() ==> comes_first(
                    options,
                    #[trigger] list[i],
                    #[trigger] list[j],
                )
        }),
{
    lemma_contradictions(options);
    lemma_conflict_list(options, options.len());
    let list = conflict_list(options, options.len());
    assert forall|option: OptionView| #[trigger]
        list.contains(option) <==> in_conflict(options, option) by {
        if in_conflict(options, option) {
            let k = choose|k: int| 0 <= k < options.len() && options[k] == option;
            assert(options[k] == option);
        }
    }
}

/// `a` stands among the options before `b` first does.
pub open spec fn comes_first(options: Seq<OptionView>, a: OptionView, b: OptionView) -> bool {
    exists|p: int|
        0 <= p < options.len() && #[trigger] options[p] == a && forall|q: int|
            0 <= q <= p ==> #[trigger] options[q] != b
}

proof fn lemma_conflict_list(options: Seq<OptionView>, n: nat)
    requires
        n <= options.len(),
    ensures
        ({
            let list = conflict_list(options, n);
            &&& forall|option: OptionView| #[trigger]
                list.contains(option) <==> in_conflict(options, option) && exists|k: int|
                    0 <= k < n && #[trigger] options[k] == option
            &&& forall|i: int, j: int|
                0 <= i < j < list.len() ==> #[trigger] list[i] != #[trigger] list[j]
            &&& forall|i: int, j: int|
                0 <= i < j < list.len() ==> comes_first(
                    options,
                    #[trigger] list[i],
                    #[trigger] list[j],
                )
        }),
    decreases n,
{
    if n > 0 {
        let last = (n - 1) as nat;
        lemma_conflict_list(options, last);
        let before = conflict_list(options, last);
        let list = conflict_list(options, n);
        let option = options[last as int];
        if in_conflict(options, option) && !before.contains(option) {
            assert(list == before.push(option));
            assert forall|other: OptionView| #[trigger]
                list.contains(other) <==> in_conflict(options, other) && exists|k: int|
                    0 <= k < n && #[trigger] options[k] == other by {
                if list.contains(other) {
                    if other == option {
                        assert(options[last as int] == other);
                    } else {
                        let i = choose|i: int| 0 <= i < list.len() && list[i] == other;
                        assert(before[i] == other);
                        assert(before.contains(other));
                    }
                }
                if in_conflict(options, other) && exists|k: int|
                    0 <= k < n && #[trigger] options[k] == other {
                    if other == option {
                        assert(list[list.len() - 1] == other);
                    } else {
                        assert(before.contains(other));
                        let i = choose|i: int| 0 <= i < before.len() && before[i] == other;
                        assert(list[i] == other);
                    }
                }
            }
            assert forall|i: int, j: int| 0 <= i < j < list.len() implies #[trigger] list[i]
                != #[trigger] list[j] by {
                if j == before.len() {
                    assert(before[i] == list[i]);
                    assert(before.contains(list[i]));
                }
            }
            assert forall|i: int, j: int| 0 <= i < j < list.len() implies comes_first(
                options,
                #[trigger] list[i],
                #[trigger] list[j],
            ) by {
                if j == before.len() {
                    assert(before.contains(before[i]));
                    let p = choose|p: int| 0 <= p < last && #[trigger] options[p] == before[i];
                    assert forall|q: int| 0 <= q <= p implies #[trigger] options[q] != option by {
                        if options[q] == option {
                            assert(before.contains(option));
                        }
                    }
                    assert(options[p] == list[i]);
                } else {
                    assert(list[i] == before[i] && list[j] == before[j]);
                }
            }
        } else {
            assert(list == before);
            assert forall|other: OptionView| #[trigger]
                list.contains(other) <==> in_conflict(options, other) && exists|k: int|
                    0 <= k < n && #[trigger] options[k] == other by {
                if in_conflict(options, other) && exists|k: int|
                    0 <= k < n && #[trigger] options[k] == other {
                    let k = choose|k: int| 0 <= k < n && #[trigger] options[k] == other;
                    if k == last {
                        assert(before.contains(option));
                    }
                }
                if before.contains(other) {
                    let k = choose|k: int| 0 <= k < last && #[trigger] options[k] == other;
                    assert(options[k] == other);
                }
            }
        }
    }
}

/// A list of options is written in brackets, its items with a comma and a blank between them.
pub proof fn law_lists_are_written_in_parts(a: Seq<OptionView>, b: Seq<OptionView>, one: OptionView)
    requires
        a.len() > 0,
        b.len() > 0,
    ensures
        debug_items(a + b, a.len() + b.len()) == debug_items(a, a.len()) + ", "@ + debug_items(
            b,
            b.len(),
        ),
        debug_items(seq![one], 1) == debug_text(one),
        debug_list(a) == "["@ + debug_items(a, a.len()) + "]"@,
    decreases b.len(),
{
    let all = a + b;
    if b.len() == 1 {
        lemma_items_of_a_part(a, b, a.len());
        assert(all[a.len() as int] == b[0]);
    } else {
        let fewer = b.drop_last();
        law_lists_are_written_in_parts(a, fewer, one);
        lemma_items_of_a_part(a + fewer, seq![b.last()], (a.len() + fewer.len()) as nat);
        lemma_items_of_a_part(fewer, seq![b.last()], fewer.len());
        assert(all =~= (a + fewer) + seq![b.last()]);
        assert(b =~= fewer + seq![b.last()]);
        assert(all.last() == b.last());
        assert(debug_items(all, all.len()) =~= debug_items(a, a.len()) + ", "@ + debug_items(
            b,
            b.len(),
        ));
    }
}

proof fn lemma_items_of_a_part(a: Seq<OptionView>, b: Seq<OptionView>, n: nat)
    requires
        n <= a.len(),
    ensures
        debug_items(a + b, n) == debug_items(a, n),
    decreases n,
{
    if n > 1 {
        lemma_items_of_a_part(a, b, (n - 1) as nat);
    }
}

/// The texts of the options, as mount takes them: the contrary of an option has `no` before its
/// text, but for reading and writing and for synchronous I/O.
pub proof fn law_option_texts(name: Seq<char>)
    ensures
        option_text(OptionView::FSName(name)) == "fsname="@ + name,
        option_text(OptionView::Subtype(name)) == "subtype="@ + name,
        option_text(OptionView::CUSTOM(name)) == name,
        option_text(OptionView::MacFsKit) == "backend=fskit"@,
        option_text(OptionView::AutoUnmount) == "auto_unmount"@,
        option_text(OptionView::DefaultPermissions) == "default_permissions"@,
        option_text(OptionView::Dev) == "dev"@,
        option_text(OptionView::NoDev) == "no"@ + option_text(OptionView::Dev),
        option_text(OptionView::Suid) == "suid"@,
        option_text(OptionView::NoSuid) == "no"@ + option_text(OptionView::Suid),
        option_text(OptionView::RO) == "ro"@,
        option_text(OptionView::RW) == "rw"@,
        option_text(OptionView::Exec) == "exec"@,
        option_text(OptionView::NoExec) == "no"@ + option_text(OptionView::Exec),
        option_text(OptionView::Atime) == "atime"@,
        option_text(OptionView::NoAtime) == "no"@ + option_text(OptionView::Atime),
        option_text(OptionView::DirSync) == "dir"@ + option_text(OptionView::Sync),
        option_text(OptionView::Sync) == "sync"@,
        option_text(OptionView::Async) == "a"@ + option_text(OptionView::Sync),
{
    reveal_strlit("no");
    reveal_strlit("a");
    reveal_strlit("dir");
    reveal_strlit("dev");
    reveal_strlit("nodev");
    reveal_strlit("suid");
    reveal_strlit("nosuid");
    reveal_strlit("exec");
    reveal_strlit("noexec");
    reveal_strlit("atime");
    reveal_strlit("noatime");
    reveal_strlit("sync");
    reveal_strlit("async");
    reveal_strlit("dirsync");
    assert("nodev"@ =~= "no"@ + "dev"@);
    assert("nosuid"@ =~= "no"@ + "suid"@);
    assert("noexec"@ =~= "no"@ + "exec"@);
    assert("noatime"@ =~= "no"@ + "atime"@);
    assert("async"@ =~= "a"@ + "sync"@);
    assert("dirsync"@ =~= "dir"@ + "sync"@);
}

/// fusermount reads the names and the automatic unmount, the kernel reads custom options, the
/// backend and the permission check as options, and all others as flags.
pub proof fn law_readers_of_options(option: OptionView)
    ensures
        group_of(option) is Fusermount <==> option is FSName || option is Subtype
            || option is AutoUnmount,
        group_of(option) is KernelOption <==> option is CUSTOM || option is MacFsKit
            || option is DefaultPermissions,
{
}

/// Which options set which flag of the mount system call, on every system.
pub proof fn law_flags_of_options(option: OptionView, os: Os)
    ensures
        ({
            let bsd = !(os is Linux || os is Macos);
            let flag = flag_of(option, os);
            &&& flag == Ok::<_, ErrorView>(MountFlag::RdOnly) <==> option is RO
            &&& flag == Ok::<_, ErrorView>(MountFlag::NoSuid) <==> option is NoSuid
            &&& flag == Ok::<_, ErrorView>(MountFlag::NoExec) <==> option is NoExec
            &&& flag == Ok::<_, ErrorView>(MountFlag::NoAtime) <==> option is NoAtime
            &&& flag == Ok::<_, ErrorView>(MountFlag::NoDev) <==> option is NoDev && !(
            os is FreeBsd)
            &&& flag == Ok::<_, ErrorView>(MountFlag::DirSync) <==> option is DirSync && os is Linux
            &&& flag == Ok::<_, ErrorView>(MountFlag::Async) <==> option is Async && bsd
            &&& flag == Ok::<_, ErrorView>(MountFlag::Synchronous) <==> option is Sync || (
            option is DirSync && bsd)
            &&& flag == Ok::<_, ErrorView>(MountFlag::Empty) <==> option is Dev || option is Suid
                || option is RW || option is Exec || option is Atime || (option is Async && !bsd)
            &&& flag matches Err(error) ==> (error matches ErrorView::Custom { kind, .. } && kind
                == (if option is NoDev {
                ErrorKind::Unsupported
            } else {
                ErrorKind::InvalidInput
            }))
        }),
{
}

/// The characters are the same but for upper case in the first text.
pub open spec fn same_but_for_case(text: Seq<char>, lower: Seq<char>) -> bool {
    &&& text.len() == lower.len()
    &&& forall|i: int|
        0 <= i < text.len() ==> lower[i] as int == #[trigger] text[i] as int + (if 'A' <= text[i]
            && text[i] <= 'Z' {
            32int
        } else {
            0
        })
}

/// An option that the kernel reads as a flag is written in messages as mount takes it, but for
/// upper case.
pub proof fn law_flags_are_written_as_they_are_taken(option: OptionView)
    requires
        group_of(option) is KernelFlag,
    ensures
        same_but_for_case(debug_text(option), option_text(option)),
{
    reveal_strlit("Dev");
    reveal_strlit("dev");
    reveal_strlit("NoDev");
    reveal_strlit("nodev");
    reveal_strlit("Suid");
    reveal_strlit("suid");
    reveal_strlit("NoSuid");
    reveal_strlit("nosuid");
    reveal_strlit("RO");
    reveal_strlit("ro");
    reveal_strlit("RW");
    reveal_strlit("rw");
    reveal_strlit("Exec");
    reveal_strlit("exec");
    reveal_strlit("NoExec");
    reveal_strlit("noexec");
    reveal_strlit("Atime");
    reveal_strlit("atime");
    reveal_strlit("NoAtime");
    reveal_strlit("noatime");
    reveal_strlit("DirSync");
    reveal_strlit("dirsync");
    reveal_strlit("Sync");
    reveal_strlit("sync");
    reveal_strlit("Async");
    reveal_strlit("async");
}

} // verus!
