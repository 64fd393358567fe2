//! The arguments that tell libfuse how to mount.

use vstd::prelude::*;
use vstd::string::*;

use crate::acl::SessionACL;
use crate::mount_options::{option_text, option_to_string, views, MountOption, OptionView};
use crate::text::holds_char;

verus! {

/// The arguments for the first `n` options: the program's name, then each option behind `-o`.
pub open spec fn option_arguments(options: Seq<OptionView>, n: nat) -> Seq<Seq<char>>
    decreases n,
{
    if n == 0 || n > options.len() {
        seq!["rust-fuse"@]
    } else {
        option_arguments(options, (n - 1) as nat).push("-o"@).push(option_text(options[n - 1]))
    }
}

/// The arguments for the options and for who may use the filesystem.
pub open spec fn arguments(options: Seq<OptionView>, acl: SessionACL) -> Seq<Seq<char>> {
    let listed = option_arguments(options, options.len());
    if acl == SessionACL::Owner {
        listed
    } else {
        listed.push("-o"@).push("allow_other"@)
    }
}

/// The characters of each of the strings.
pub open spec fn texts(strings: Seq<String>) -> Seq<Seq<char>> {
    strings.map_values(|s: String| s@)
}

/// Whether every option can be handed to a native library: its text holds no null character,
/// which would end it early.
pub open spec fn representable(options: Seq<OptionView>) -> bool {
    forall|i: int| 0 <= i < options.len() ==> !option_text(#[trigger] options[i]).contains('\0')
}

/// Whether every option can be handed to a native library.
pub fn is_representable(options: &Vec<MountOption>) -> (r: bool)
    ensures
        r == representable(views(options@)),
{
    let ghost all = views(options@);
    let mut i: usize = 0;
    while i < options.len()
        invariant
            i <= options@.len(),
            all == views(options@),
            forall|k: int| 0 <= k < i ==> !option_text(#[trigger] all[k]).contains('\0'),
        decreases options@.len() - i,
    {
        assert(all[i as int] == options@[i as int]@);
        if holds_char(option_to_string(&options[i]).as_str(), '\0') {
            return false;
        }
        i = i + 1;
    }
    true
}

/// Provides options as arguments to `f`, as a native library takes them. None of them holds a
/// null character.
pub fn with_fuse_args<T, F: FnOnce(Vec<String>) -> T>(
    options: &Vec<MountOption>,
    acl: SessionACL,
    f: F,
) -> (r: T)
    requires
        representable(views(options@)),
        forall|args: Vec<String>|
            texts(args@) == arguments(views(options@), acl) ==> call_requires(f, (args,)),
    ensures
        exists|args: Vec<String>| #[trigger]
            call_ensures(f, (args,), r) && texts(args@) == arguments(views(options@), acl) && (
            forall|i: int| 0 <= i < args@.len() ==> !(#[trigger] args@[i])@.contains('\0')),
{
    let args = fuse_arguments(options, acl);
    f(args)
}

/// The arguments for the options and for who may use the filesystem.
pub fn fuse_arguments(options: &Vec<MountOption>, acl: SessionACL) -> (r: Vec<String>)
    requires
        representable(views(options@)),
    ensures
        texts(r@) == arguments(views(options@), acl),
        forall|i: int| 0 <= i < r@.len() ==> !(#[trigger] r@[i])@.contains('\0'),
{
    proof {
        reveal_strlit("rust-fuse");
        reveal_strlit("-o");
        reveal_strlit("allow_other");
    }
    let ghost all = views(options@);
    let mut args: Vec<String> = Vec::new();
    args.push("rust-fuse".to_owned());
    assert(texts(args@) =~= option_arguments(all, 0));
    let mut i: usize = 0;
    while i < options.len()
        invariant
            i <= options@.len(),
            all == views(options@),
            representable(all),
            !"-o"@.contains('\0'),
            texts(args@) == option_arguments(all, i as nat),
            forall|k: int| 0 <= k < args@.len() ==> !(#[trigger] args@[k])@.contains('\0'),
        decreases options@.len() - i,
    {
        let ghost before = args@;
        let text = option_to_string(&options[i]);
        assert(all[i as int] == options@[i as int]@);
        args.push("-o".to_owned());
        args.push(text);
        assert(texts(args@) =~= texts(before).push("-o"@).push(option_text(all[i as int])));
        i = i + 1;
    }
    if let Some(acl) = acl.to_mount_option() {
        let ghost before = args@;
        args.push("-o".to_owned());
        args.push(acl.to_owned());
        assert(texts(args@) =~= texts(before).push("-o"@).push("allow_other"@));
    }
    args
}

/// The arguments name option `i` as a pair: `-o`, then the option's text.
pub open spec fn names_option(args: Seq<Seq<char>>, options: Seq<OptionView>, i: int) -> bool {
    args[1 + 2 * i] == "-o"@ && args[2 + 2 * i] == option_text(options[i])
}

/// The program's name comes first, and behind it the arguments come in pairs: `-o` and the text
/// of an option, in the order of the options. Where not only the owner may use the filesystem,
/// `-o` and `allow_other` close the list. Nothing else is added.
pub proof fn law_arguments_are_pairs(options: Seq<OptionView>, acl: SessionACL)
    ensures
        arguments(options, acl).len() == 1 + 2 * options.len() + (if acl == SessionACL::Owner {
            0int
        } else {
            2
        }),
        arguments(options, acl)[0] == "rust-fuse"@,
        forall|i: int|
            0 <= i < options.len() ==> #[trigger] names_option(arguments(options, acl), options, i),
        acl != SessionACL::Owner ==> arguments(options, acl)[1 + 2 * options.len() as int] == "-o"@
            && arguments(options, acl).last() == "allow_other"@,
{
    lemma_option_arguments(options, options.len());
    let listed = option_arguments(options, options.len());
    assert forall|i: int| 0 <= i < options.len() implies #[trigger] names_option(
        arguments(options, acl),
        options,
        i,
    ) by {
        assert(names_option(listed, options, i));
    }
}

proof fn lemma_option_arguments(options: Seq<OptionView>, n: nat)
    requires
        n <= options.len(),
    ensures
        option_arguments(options, n).len() == 1 + 2 * n,
        option_arguments(options, n)[0] == "rust-fuse"@,
        forall|i: int|
            0 <= i < n ==> #[trigger] names_option(option_arguments(options, n), options, i),
    decreases n,
{
    if n > 0 {
        lemma_option_arguments(options, (n - 1) as nat);
        let before = option_arguments(options, (n - 1) as nat);
        assert forall|i: int| 0 <= i < n implies #[trigger] names_option(
            option_arguments(options, n),
            options,
            i,
        ) by {
            if i < n - 1 {
                assert(names_option(before, options, i));
            }
        }
    }
}

/// Options can be handed to a native library exactly where none of the arguments that are made of
/// them holds a null character, whoever may use the filesystem.
pub proof fn law_arguments_without_null_characters(options: Seq<OptionView>, acl: SessionACL)
    ensures
        representable(options) <==> forall|i: int|
            0 <= i < arguments(options, acl).len() ==> !(#[trigger] arguments(
                options,
                acl,
            )[i]).contains('\0'),
{
    reveal_strlit("rust-fuse");
    reveal_strlit("-o");
    reveal_strlit("allow_other");
    law_arguments_are_pairs(options, acl);
    let args = arguments(options, acl);
    if representable(options) {
        assert forall|i: int| 0 <= i < args.len() implies !(#[trigger] args[i]).contains('\0') by {
            if 0 < i <= 2 * options.len() {
                let k = (i - 1) / 2;
                assert(names_option(args, options, k));
                assert(!option_text(options[k]).contains('\0'));
                assert(i == 1 + 2 * k || i == 2 + 2 * k);
            }
        }
    } else {
        let k = choose|k: int|
            0 <= k < options.len() && option_text(#[trigger] options[k]).contains('\0');
        assert(names_option(args, options, k));
        assert(args[2 + 2 * k].contains('\0'));
    }
}

} // verus!
