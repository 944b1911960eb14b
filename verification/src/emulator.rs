//! How the emulator is invoked.
//!
//! The emulator reads its arguments in order, so the order is part of the
//! result: the firmware image first, where one is handed over, then the drive
//! that holds the disk image, then what the user passed through, options
//! before trailing arguments.

use crate::views;
use std::path::PathBuf;
use vstd::prelude::*;

verus! {

/// One argument of the emulator's command line.
#[derive(Clone, Debug, PartialEq, Eq)]
pub enum Argument {
    /// An argument given as text.
    Text(String),
    /// An argument that is a path, handed over as it is.
    Path(PathBuf),
}

/// An argument with its text as a sequence of characters.
pub ghost enum ArgumentView {
    Text(Seq<char>),
    Path(PathBuf),
}

impl View for Argument {
    type V = ArgumentView;

    open spec fn view(&self) -> ArgumentView {
        match *self {
            Argument::Text(text) => ArgumentView::Text(text@),
            Argument::Path(path) => ArgumentView::Path(path),
        }
    }
}

/// The emulator to start and the arguments to start it with.
#[derive(Clone, Debug, PartialEq, Eq)]
pub struct LaunchRequest {
    pub program: String,
    pub arguments: Vec<Argument>,
}

/// A launch request with its texts as sequences of characters.
pub ghost struct LaunchRequestView {
    pub program: Seq<char>,
    pub arguments: Seq<ArgumentView>,
}

impl View for LaunchRequest {
    type V = LaunchRequestView;

    open spec fn view(&self) -> LaunchRequestView {
        LaunchRequestView { program: self.program@, arguments: views(self.arguments@) }
    }
}

/// Whether the emulator is handed the bundled firmware image: in UEFI mode,
/// unless the user declined it.
pub open spec fn wants_firmware(uefi: bool, no_ovmf: bool) -> bool {
    uefi && !no_ovmf
}

/// The value of the drive option for an image at `artifact`.
pub open spec fn drive_value(artifact: Seq<char>) -> Seq<char> {
    "format=raw,file="@ + artifact
}

/// The arguments that select the firmware image: the flag and the path, or
/// nothing where no image is handed over.
pub open spec fn firmware_arguments(firmware: Option<PathBuf>) -> Seq<ArgumentView> {
    match firmware {
        Some(path) => seq![ArgumentView::Text("-bios"@), ArgumentView::Path(path)],
        None => seq![],
    }
}

/// The arguments that attach the disk image as a drive.
pub open spec fn drive_arguments(artifact: Seq<char>) -> Seq<ArgumentView> {
    seq![ArgumentView::Text("-drive"@), ArgumentView::Text(drive_value(artifact))]
}

/// Texts as arguments, one for one.
pub open spec fn text_arguments(texts: Seq<Seq<char>>) -> Seq<ArgumentView> {
    texts.map_values(|text: Seq<char>| ArgumentView::Text(text))
}

/// The whole argument vector: firmware, drive, options passed through,
/// trailing arguments passed through.
pub open spec fn argument_vector(
    firmware: Option<PathBuf>,
    artifact: Seq<char>,
    args: Seq<Seq<char>>,
    extra_args: Seq<Seq<char>>,
) -> Seq<ArgumentView> {
    firmware_arguments(firmware) + drive_arguments(artifact) + text_arguments(args)
        + text_arguments(extra_args)
}

/// Decides whether the emulator is handed the bundled firmware image.
pub fn needs_firmware(uefi: bool, no_ovmf: bool) -> (wanted: bool)
    ensures
        wanted == wants_firmware(uefi, no_ovmf),
{
    uefi && !no_ovmf
}

/// Appends each text to the arguments, keeping the order.
fn push_texts(arguments: &mut Vec<Argument>, texts: &Vec<String>)
    ensures
        views(final(arguments)@) == views(old(arguments)@) + text_arguments(views(texts@)),
        final(arguments).len() == old(arguments).len() + texts.len(),
{
    let ghost start = views(arguments@);
    let mut index: usize = 0;
    assert(views(texts@.take(0)) =~= Seq::<Seq<char>>::empty());
    assert(start + text_arguments(Seq::<Seq<char>>::empty()) =~= start);
    while index < texts.len()
        invariant
            index <= texts.len(),
            arguments.len() == old(arguments).len() + index,
            views(arguments@) == start + text_arguments(views(texts@.take(index as int))),
        decreases texts.len() - index,
    {
        let ghost before = arguments@;
        let ghost seen = texts@.take(index as int);
        let text = texts[index].clone();
        arguments.push(Argument::Text(text));
        proof {
            let added = texts@[index as int]@;
            assert(texts@.take(index + 1) =~= seen.push(texts@[index as int]));
            assert(views(seen.push(texts@[index as int])) =~= views(seen).push(added));
            assert(text_arguments(views(seen).push(added)) =~= text_arguments(views(seen)).push(
                ArgumentView::Text(added),
            ));
            assert(views(before.push(Argument::Text(text))) =~= views(before).push(
                ArgumentView::Text(added),
            ));
            assert((start + text_arguments(views(seen))).push(ArgumentView::Text(added)) =~= start
                + text_arguments(views(seen)).push(ArgumentView::Text(added)));
        }
        index = index + 1;
    }
    assert(texts@.take(index as int) =~= texts@);
}

/// Builds the emulator's argument vector for the image at `artifact`.
///
/// `firmware` is the firmware image to select, if one is handed over. The
/// two kinds of arguments passed through come last, options first, each
/// kind in the order given.
pub fn emulator_arguments(
    firmware: Option<PathBuf>,
    artifact: &str,
    args: &Vec<String>,
    extra_args: &Vec<String>,
) -> (arguments: Vec<Argument>)
    ensures
        views(arguments@) == argument_vector(
            firmware,
            artifact@,
            views(args@),
            views(extra_args@),
        ),
        arguments.len() == (if firmware is Some {
            4 + args.len() + extra_args.len()
        } else {
            2 + args.len() + extra_args.len()
        }),
{
    let mut arguments: Vec<Argument> = Vec::new();
    assert(views(arguments@) =~= Seq::<ArgumentView>::empty());
    match firmware {
        Some(path) => {
            let flag = String::from_str("-bios");
            arguments.push(Argument::Text(flag));
            arguments.push(Argument::Path(path));
        },
        None => {},
    }
    assert(views(arguments@) =~= firmware_arguments(firmware));
    let flag = String::from_str("-drive");
    let value = String::from_str("format=raw,file=").concat(artifact);
    arguments.push(Argument::Text(flag));
    arguments.push(Argument::Text(value));
    assert(views(arguments@) =~= firmware_arguments(firmware) + drive_arguments(artifact@));
    push_texts(&mut arguments, args);
    push_texts(&mut arguments, extra_args);
    arguments
}

/// The order of the argument vector: the firmware flag and the firmware
/// image, where one is handed over, come before the drive flag and its
/// value; these come before the options passed through, which come before the
/// trailing arguments passed through; and each kind keeps the order in which
/// it was given. Nothing else is in the vector.
pub proof fn arguments_come_in_order(
    firmware: Option<PathBuf>,
    artifact: Seq<char>,
    args: Seq<Seq<char>>,
    extra_args: Seq<Seq<char>>,
)
    ensures
        ({
            let vector = argument_vector(firmware, artifact, args, extra_args);
            let drive_at: int = if firmware is Some {
                2
            } else {
                0
            };
            let args_at = drive_at + 2;
            let extra_at = args_at + args.len();
            &&& vector.len() == extra_at + extra_args.len()
            &&& firmware matches Some(path) ==> vector[0] == ArgumentView::Text("-bios"@)
                && vector[1] == ArgumentView::Path(path)
            &&& vector[drive_at] == ArgumentView::Text("-drive"@)
            &&& vector[drive_at + 1] == ArgumentView::Text(drive_value(artifact))
            &&& forall|i: int|
                0 <= i < args.len() ==> vector[args_at + i] == ArgumentView::Text(
                    #[trigger] args[i],
                )
            &&& forall|j: int|
                0 <= j < extra_args.len() ==> vector[extra_at + j] == ArgumentView::Text(
                    #[trigger] extra_args[j],
                )
        }),
{
}

} // verus!
