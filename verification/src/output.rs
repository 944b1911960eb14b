//! Where the disk image is written.
//!
//! The command line gives one hint that may name a directory or the image
//! file itself. Whether the hint is an existing directory, and whether a
//! missing directory could be created, is for the caller to find out; what
//! follows from the answers is decided here.

use crate::paths::{has_trailing_separator, join, path_join, trailing_separator};
use crate::Firmware;
use std::path::PathBuf;
use vstd::prelude::*;

verus! {

impl Firmware {
    /// The firmware interface that the `uefi` flag selects.
    pub open spec fn spec_of_flag(uefi: bool) -> Firmware {
        if uefi {
            Firmware::Uefi
        } else {
            Firmware::Bios
        }
    }

    /// The file name of an image where the hint names only a directory.
    pub open spec fn spec_default_file_name(self) -> Seq<char> {
        match self {
            Firmware::Uefi => "uefi.img"@,
            Firmware::Bios => "bios.img"@,
        }
    }

    /// The firmware interface that the `uefi` flag selects: one of the two,
    /// never both.
    #[verifier::when_used_as_spec(spec_of_flag)]
    pub fn of_flag(uefi: bool) -> (firmware: Firmware)
        ensures
            firmware == Firmware::spec_of_flag(uefi),
    {
        if uefi {
            Firmware::Uefi
        } else {
            Firmware::Bios
        }
    }

    /// The file name of an image where the hint names only a directory:
    /// `uefi.img` or `bios.img`.
    pub fn default_file_name(self) -> (name: &'static str)
        ensures
            name@ == self.spec_default_file_name(),
    {
        match self {
            Firmware::Uefi => "uefi.img",
            Firmware::Bios => "bios.img",
        }
    }
}

/// Whether the hint asks for a directory that has yet to be created: it does
/// not name an existing directory and is written with a trailing separator.
pub open spec fn wants_directory(hint: PathBuf, is_dir: bool) -> bool {
    !is_dir && has_trailing_separator(hint)
}

/// The path of the image.
///
/// `is_dir` says whether the hint names an existing directory. `created`
/// says whether the directory was created, and counts only where
/// `wants_directory` holds. The image goes into the directory under the
/// default name where the directory exists or was created; in every other
/// case the hint itself is the path of the image.
pub open spec fn output_path(
    hint: PathBuf,
    default_file_name: Seq<char>,
    is_dir: bool,
    created: bool,
) -> PathBuf {
    if is_dir || (wants_directory(hint, is_dir) && created) {
        path_join(hint, default_file_name)
    } else {
        hint
    }
}

/// Decides whether the caller is to create the directory that the hint
/// names before the image path is resolved.
pub fn needs_directory(out_dir: &PathBuf, is_dir: bool) -> (wanted: bool)
    ensures
        wanted == wants_directory(*out_dir, is_dir),
{
    !is_dir && trailing_separator(out_dir)
}

/// Resolves the path of the image from the hint and from what the caller
/// found out about it.
pub fn get_output_path(
    out_dir: PathBuf,
    default_file_name: &str,
    is_dir: bool,
    created: bool,
) -> (path: PathBuf)
    ensures
        path == output_path(out_dir, default_file_name@, is_dir, created),
        is_dir ==> path == path_join(out_dir, default_file_name@),
        !is_dir && has_trailing_separator(out_dir) && created ==> path == path_join(
            out_dir,
            default_file_name@,
        ),
        !is_dir && has_trailing_separator(out_dir) && !created ==> path == out_dir,
        !is_dir && !has_trailing_separator(out_dir) ==> path == out_dir,
{
    if is_dir {
        join(&out_dir, default_file_name)
    } else if trailing_separator(&out_dir) {
        if created {
            join(&out_dir, default_file_name)
        } else {
            out_dir
        }
    } else {
        out_dir
    }
}

} // verus!
