//! The tool's location, and the commands that are built for it.

use crate::arguments::{apply_args, create_args, path_view};
use crate::outcome::FlipsError;
use crate::patch_type::PatchType;
use vstd::prelude::*;

verus! {

/// Where the tool and the clean ROM are.
#[derive(Debug)]
pub struct FlipsWrapper {
    flips_path: String,
    clean_rom_path: String,
}

/// A [`FlipsWrapper`] as two paths.
pub struct ToolLocation {
    pub flips_path: Seq<char>,
    pub clean_rom_path: Seq<char>,
}

impl View for FlipsWrapper {
    type V = ToolLocation;

    closed spec fn view(&self) -> ToolLocation {
        ToolLocation { flips_path: self.flips_path@, clean_rom_path: self.clean_rom_path@ }
    }
}

/// A command that is ready to be run: the program and its arguments.
#[derive(Debug)]
pub struct Invocation {
    pub program: String,
    pub args: Vec<String>,
}

/// Whether the tool counts as present: only if the look at the file system
/// worked and found a file.
fn tool_is_there(flips_exists: Option<bool>) -> (there: bool)
    ensures
        there == (flips_exists == Some(true)),
{
    match flips_exists {
        Some(found) => found,
        None => false,
    }
}

/// Appends `arg` to `args`.
fn push_arg(args: &mut Vec<String>, arg: &str)
    ensures
        final(args).deep_view() == old(args).deep_view().push(arg@),
{
    args.push(arg.to_string());
}

impl FlipsWrapper {
    /// A wrapper for the tool at `flips_path`, working from the clean ROM at
    /// `clean_rom_path`.
    pub fn new(flips_path: String, clean_rom_path: String) -> (wrapper: Self)
        ensures
            wrapper@ == (ToolLocation {
                flips_path: flips_path@,
                clean_rom_path: clean_rom_path@,
            }),
    {
        FlipsWrapper { flips_path, clean_rom_path }
    }

    /// The path of the tool.
    pub fn flips_path(&self) -> (path: &str)
        ensures
            path@ == self@.flips_path,
    {
        self.flips_path.as_str()
    }

    /// The path of the clean ROM.
    pub fn clean_rom_path(&self) -> (path: &str)
        ensures
            path@ == self@.clean_rom_path,
    {
        self.clean_rom_path.as_str()
    }

    /// The arguments for creating a patch that turns the clean ROM into
    /// `modified_rom_path`.
    pub fn create_patch_args(
        &self,
        modified_rom_path: &str,
        output_patch_path: Option<&str>,
        exact: Option<bool>,
        patch_type: Option<PatchType>,
    ) -> (args: Vec<String>)
        ensures
            args.deep_view() == create_args(
                self@.clean_rom_path,
                modified_rom_path@,
                path_view(output_patch_path),
                exact,
                patch_type,
            ),
    {
        let mut args: Vec<String> = Vec::new();
        push_arg(&mut args, "--create");
        if let Some(exact) = exact {
            if exact {
                push_arg(&mut args, "--exact");
            }
        }
        if let Some(patch_type) = patch_type {
            push_arg(&mut args, patch_type.flag());
        }
        push_arg(&mut args, self.clean_rom_path.as_str());
        push_arg(&mut args, modified_rom_path);
        if let Some(patch_path) = output_patch_path {
            push_arg(&mut args, patch_path);
        }
        args
    }

    /// Decides how a request to create a patch goes on.
    ///
    /// `flips_exists` is what a look at the file system said of the tool's
    /// path: `Some(true)` if a file is there, `Some(false)` if none is, and
    /// `None` if that could not be found out. Only with `Some(true)` is the
    /// tool to be run, with the create arguments. Otherwise the request ends
    /// in `FlipsMissing` with the tool's path, and there is nothing to run.
    pub fn plan_create_patch(
        &self,
        flips_exists: Option<bool>,
        modified_rom_path: &str,
        output_patch_path: Option<&str>,
        exact: Option<bool>,
        patch_type: Option<PatchType>,
    ) -> (plan: Result<Invocation, FlipsError>)
        ensures
            flips_exists != Some(true) ==> (plan matches Err(
                FlipsError::FlipsMissing { flips_path },
            ) && flips_path@ == self@.flips_path),
            flips_exists == Some(true) ==> (plan matches Ok(invocation) && invocation.program@
                == self@.flips_path && invocation.args.deep_view() == create_args(
                self@.clean_rom_path,
                modified_rom_path@,
                path_view(output_patch_path),
                exact,
                patch_type,
            )),
    {
        if !tool_is_there(flips_exists) {
            return Err(FlipsError::FlipsMissing { flips_path: self.flips_path.clone() });
        }
        let args = self.create_patch_args(modified_rom_path, output_patch_path, exact, patch_type);
        Ok(Invocation { program: self.flips_path.clone(), args })
    }

    /// The arguments for applying `patch_path` to the clean ROM.
    pub fn apply_patch_args(
        &self,
        patch_path: &str,
        output_rom_path: Option<&str>,
        exact: Option<bool>,
        ignore_checksum: Option<bool>,
    ) -> (args: Vec<String>)
        ensures
            args.deep_view() == apply_args(
                self@.clean_rom_path,
                patch_path@,
                path_view(output_rom_path),
                exact,
                ignore_checksum,
            ),
    {
        let mut args: Vec<String> = Vec::new();
        push_arg(&mut args, "--apply");
        if let Some(exact) = exact {
            if exact {
                push_arg(&mut args, "--exact");
            }
        }
        if let Some(ignore_checksum) = ignore_checksum {
            if ignore_checksum {
                push_arg(&mut args, "--ignore-checksum");
            }
        }
        push_arg(&mut args, patch_path);
        push_arg(&mut args, self.clean_rom_path.as_str());
        if let Some(output_rom_path) = output_rom_path {
            push_arg(&mut args, output_rom_path);
        }
        args
    }

    /// Decides how a request to apply a patch goes on.
    ///
    /// `flips_exists` is what a look at the file system said of the tool's
    /// path: `Some(true)` if a file is there, `Some(false)` if none is, and
    /// `None` if that could not be found out. Only with `Some(true)` is the
    /// tool to be run, with the apply arguments. Otherwise the request ends
    /// in `FlipsMissing` with the tool's path, and there is nothing to run.
    pub fn plan_apply_patch(
        &self,
        flips_exists: Option<bool>,
        patch_path: &str,
        output_rom_path: Option<&str>,
        exact: Option<bool>,
        ignore_checksum: Option<bool>,
    ) -> (plan: Result<Invocation, FlipsError>)
        ensures
            flips_exists != Some(true) ==> (plan matches Err(
                FlipsError::FlipsMissing { flips_path },
            ) && flips_path@ == self@.flips_path),
            flips_exists == Some(true) ==> (plan matches Ok(invocation) && invocation.program@
                == self@.flips_path && invocation.args.deep_view() == apply_args(
                self@.clean_rom_path,
                patch_path@,
                path_view(output_rom_path),
                exact,
                ignore_checksum,
            )),
    {
        if !tool_is_there(flips_exists) {
            return Err(FlipsError::FlipsMissing { flips_path: self.flips_path.clone() });
        }
        let args = self.apply_patch_args(patch_path, output_rom_path, exact, ignore_checksum);
        Ok(Invocation { program: self.flips_path.clone(), args })
    }
}

} // verus!
