//! The build target: which chip the firmware is built for, and with which
//! clock plan.

use crate::error::BuildError;
use vstd::prelude::*;
use vstd::string::StringExecFns;

verus! {

/// The CPU clock frequency, in hertz.
pub const CPU_FREQ: u32 = 8000000;

/// The USB clock frequency, in hertz. It is the CPU clock by design, so that
/// one oscillator setting serves both.
pub const USB_FREQ: u32 = CPU_FREQ;

/// The board identifier handed to the vendored stack.
pub const BOARD: &'static str = "CULV3";

/// The architecture family of the 8-bit chips.
pub const ARCH: &'static str = "AVR8";

/// What the compilation target says of the microcontroller, as the device
/// database spells it.
#[derive(Clone, Debug, PartialEq, Eq)]
pub struct DetectedDevice {
    /// The device name, in the database's own capitalisation.
    pub name: String,
    /// The preprocessor macro that identifies the chip to C code.
    pub c_preprocessor_name: String,
}

/// The mathematical content of a `DetectedDevice`.
pub ghost struct DeviceModel {
    pub name: Seq<char>,
    pub c_preprocessor_name: Seq<char>,
}

impl View for DetectedDevice {
    type V = DeviceModel;

    open spec fn view(&self) -> DeviceModel {
        DeviceModel { name: self.name@, c_preprocessor_name: self.c_preprocessor_name@ }
    }
}

/// The mathematical content of a `BuildTarget`.
pub ghost struct TargetModel {
    /// The chip name in lower case.
    pub chip: Seq<char>,
    /// The preprocessor macro that identifies the chip.
    pub chip_macro: Seq<char>,
    /// The architecture family.
    pub arch: Seq<char>,
    /// The board identifier.
    pub board: Seq<char>,
    /// The CPU clock frequency in hertz.
    pub cpu_freq: nat,
    /// The USB clock frequency in hertz.
    pub usb_freq: nat,
}

/// The configuration of one build. It is made once and handed to every
/// consumer, so that the archive and the declarations cannot disagree.
#[derive(Clone, Debug, PartialEq, Eq)]
pub struct BuildTarget {
    chip: String,
    chip_macro: String,
    arch: String,
    board: String,
    cpu_freq: u32,
    usb_freq: u32,
}

impl View for BuildTarget {
    type V = TargetModel;

    closed spec fn view(&self) -> TargetModel {
        TargetModel {
            chip: self.chip@,
            chip_macro: self.chip_macro@,
            arch: self.arch@,
            board: self.board@,
            cpu_freq: self.cpu_freq as nat,
            usb_freq: self.usb_freq as nat,
        }
    }
}

/// The lower-case form of a text, as the standard library's Unicode case
/// mapping defines it.
pub uninterp spec fn lowercase_of(text: Seq<char>) -> Seq<char>;

/// Calls `str::to_lowercase` of the standard library. The contract names the
/// result: it is the lower-case form of the argument, and depends on
/// nothing else.
#[verifier::external_body]
fn to_lowercase(text: &str) -> (r: String)
    ensures
        r@ == lowercase_of(text@),
{
    text.to_lowercase()
}

/// The target for a chip whose normalised name is `chip` and whose
/// preprocessor macro is `chip_macro`: the fixed architecture and board, and
/// both clocks at the shared frequency.
pub open spec fn target_for_chip(chip: Seq<char>, chip_macro: Seq<char>) -> TargetModel {
    TargetModel {
        chip,
        chip_macro,
        arch: ARCH@,
        board: BOARD@,
        cpu_freq: CPU_FREQ as nat,
        usb_freq: USB_FREQ as nat,
    }
}

/// The target that a detected device resolves to.
pub open spec fn resolved_target(device: DeviceModel) -> TargetModel {
    target_for_chip(lowercase_of(device.name), device.c_preprocessor_name)
}

impl BuildTarget {
    /// Makes the target for a chip that is already named in lower case.
    pub fn for_chip(chip: String, chip_macro: String) -> (t: BuildTarget)
        ensures
            t@ == target_for_chip(chip@, chip_macro@),
    {
        BuildTarget {
            chip,
            chip_macro,
            arch: String::from_str(ARCH),
            board: String::from_str(BOARD),
            cpu_freq: CPU_FREQ,
            usb_freq: USB_FREQ,
        }
    }

    /// The chip name, in lower case.
    pub fn chip(&self) -> (r: &str)
        ensures
            r@ == self@.chip,
    {
        self.chip.as_str()
    }

    /// The preprocessor macro that identifies the chip.
    pub fn chip_macro(&self) -> (r: &str)
        ensures
            r@ == self@.chip_macro,
    {
        self.chip_macro.as_str()
    }

    /// The architecture family.
    pub fn arch(&self) -> (r: &str)
        ensures
            r@ == self@.arch,
    {
        self.arch.as_str()
    }

    /// The board identifier.
    pub fn board(&self) -> (r: &str)
        ensures
            r@ == self@.board,
    {
        self.board.as_str()
    }

    /// The CPU clock frequency in hertz.
    pub fn cpu_freq(&self) -> (r: u32)
        ensures
            r as nat == self@.cpu_freq,
    {
        self.cpu_freq
    }

    /// The USB clock frequency in hertz.
    pub fn usb_freq(&self) -> (r: u32)
        ensures
            r as nat == self@.usb_freq,
    {
        self.usb_freq
    }
}

/// Resolves the compilation target to a build target.
///
/// `detected` is what the target metadata gave: the one microcontroller it
/// names, or nothing where it names none. A target without a known
/// microcontroller is refused, never replaced by a default.
pub fn resolve(detected: Option<DetectedDevice>) -> (r: Result<BuildTarget, BuildError>)
    ensures
        match detected {
            Some(device) => r is Ok && r->Ok_0@ == resolved_target(device@),
            None => r == Err::<BuildTarget, BuildError>(BuildError::UnresolvedTarget),
        },
{
    match detected {
        Some(device) => {
            let chip: String = to_lowercase(device.name.as_str());
            Ok(BuildTarget::for_chip(chip, device.c_preprocessor_name))
        },
        None => Err(BuildError::UnresolvedTarget),
    }
}

/// Every resolved target runs both clocks at the one shared frequency, on
/// the fixed board and architecture.
pub proof fn lemma_resolved_clocks_agree(device: DeviceModel)
    ensures
        resolved_target(device).cpu_freq == resolved_target(device).usb_freq,
        resolved_target(device).cpu_freq == 8000000,
        resolved_target(device).arch == ARCH@,
        resolved_target(device).board == BOARD@,
{
}

} // verus!
