//! The command lines the tool is given, as sequences of arguments.
//!
//! The order is the tool's own: the operation, then the flags, then the
//! paths. A flag that is not asked for leaves no trace in the list.

use crate::patch_type::PatchType;
use vstd::prelude::*;

verus! {

/// A path that may be absent, as a sequence of characters.
pub open spec fn path_view(path: Option<&str>) -> Option<Seq<char>> {
    match path {
        Some(p) => Some(p@),
        None => None,
    }
}

/// `flag` as a one-element argument list if `on`, else no arguments.
pub open spec fn flag_if(on: bool, flag: Seq<char>) -> Seq<Seq<char>> {
    if on {
        seq![flag]
    } else {
        Seq::empty()
    }
}

/// The argument for a value that may be absent.
pub open spec fn arg_if_some(arg: Option<Seq<char>>) -> Seq<Seq<char>> {
    match arg {
        Some(a) => seq![a],
        None => Seq::empty(),
    }
}

/// The flag of a format that may be absent.
pub open spec fn format_flag(patch_type: Option<PatchType>) -> Seq<Seq<char>> {
    match patch_type {
        Some(t) => seq![t.flag_spec()],
        None => Seq::empty(),
    }
}

/// The arguments that make the tool create a patch: `--create`, then
/// `--exact` if asked for, then the format's flag if a format is given, then
/// the clean ROM, the modified ROM, and the patch to write if one is named.
pub open spec fn create_args(
    clean_rom_path: Seq<char>,
    modified_rom_path: Seq<char>,
    output_patch_path: Option<Seq<char>>,
    exact: Option<bool>,
    patch_type: Option<PatchType>,
) -> Seq<Seq<char>> {
    seq!["--create"@] + flag_if(exact == Some(true), "--exact"@) + format_flag(patch_type)
        + seq![clean_rom_path, modified_rom_path] + arg_if_some(output_patch_path)
}

/// The arguments that make the tool apply a patch: `--apply`, then `--exact`
/// if asked for, then `--ignore-checksum` if asked for, then the patch, the
/// clean ROM, and the ROM to write if one is named.
pub open spec fn apply_args(
    clean_rom_path: Seq<char>,
    patch_path: Seq<char>,
    output_rom_path: Option<Seq<char>>,
    exact: Option<bool>,
    ignore_checksum: Option<bool>,
) -> Seq<Seq<char>> {
    seq!["--apply"@] + flag_if(exact == Some(true), "--exact"@) + flag_if(
        ignore_checksum == Some(true),
        "--ignore-checksum"@,
    ) + seq![patch_path, clean_rom_path] + arg_if_some(output_rom_path)
}

/// The create arguments by position: `--create` is first; `--exact` and the
/// format's flag, each only if asked for, come next in that order; the clean
/// ROM and the modified ROM follow; the patch to write, only if it is named,
/// is last; and the list holds nothing else.
pub proof fn lemma_create_args_layout(
    clean_rom_path: Seq<char>,
    modified_rom_path: Seq<char>,
    output_patch_path: Option<Seq<char>>,
    exact: Option<bool>,
    patch_type: Option<PatchType>,
)
    ensures
        ({
            let args = create_args(
                clean_rom_path,
                modified_rom_path,
                output_patch_path,
                exact,
                patch_type,
            );
            let e: int = if exact == Some(true) { 1 } else { 0 };
            let f: int = if patch_type is Some { 1 } else { 0 };
            let o: int = if output_patch_path is Some { 1 } else { 0 };
            &&& args.len() == 3 + e + f + o
            &&& args[0] == "--create"@
            &&& exact == Some(true) ==> args[1] == "--exact"@
            &&& patch_type matches Some(t) ==> args[1 + e] == t.flag_spec()
            &&& args[1 + e + f] == clean_rom_path
            &&& args[2 + e + f] == modified_rom_path
            &&& output_patch_path matches Some(path) ==> args[3 + e + f] == path
        }),
{
}

/// The apply arguments by position: `--apply` is first; `--exact` and
/// `--ignore-checksum`, each only if asked for, come next in that order; the
/// patch and the clean ROM follow; the ROM to write, only if it is named, is
/// last; and the list holds nothing else.
pub proof fn lemma_apply_args_layout(
    clean_rom_path: Seq<char>,
    patch_path: Seq<char>,
    output_rom_path: Option<Seq<char>>,
    exact: Option<bool>,
    ignore_checksum: Option<bool>,
)
    ensures
        ({
            let args = apply_args(
                clean_rom_path,
                patch_path,
                output_rom_path,
                exact,
                ignore_checksum,
            );
            let e: int = if exact == Some(true) { 1 } else { 0 };
            let c: int = if ignore_checksum == Some(true) { 1 } else { 0 };
            let o: int = if output_rom_path is Some { 1 } else { 0 };
            &&& args.len() == 3 + e + c + o
            &&& args[0] == "--apply"@
            &&& exact == Some(true) ==> args[1] == "--exact"@
            &&& ignore_checksum == Some(true) ==> args[1 + e] == "--ignore-checksum"@
            &&& args[1 + e + c] == patch_path
            &&& args[2 + e + c] == clean_rom_path
            &&& output_rom_path matches Some(path) ==> args[3 + e + c] == path
        }),
{
}

/// A flag that is set to `false` gives the same arguments as one that is not
/// set at all.
pub proof fn lemma_false_is_unset(
    clean_rom_path: Seq<char>,
    other_path: Seq<char>,
    output_path: Option<Seq<char>>,
    exact: Option<bool>,
    ignore_checksum: Option<bool>,
    patch_type: Option<PatchType>,
)
    ensures
        create_args(clean_rom_path, other_path, output_path, Some(false), patch_type)
            == create_args(clean_rom_path, other_path, output_path, None, patch_type),
        apply_args(clean_rom_path, other_path, output_path, Some(false), ignore_checksum)
            == apply_args(clean_rom_path, other_path, output_path, None, ignore_checksum),
        apply_args(clean_rom_path, other_path, output_path, exact, Some(false)) == apply_args(
            clean_rom_path,
            other_path,
            output_path,
            exact,
            None,
        ),
{
}

} // verus!
