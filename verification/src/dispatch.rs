use crate::error::ReaderError;
use crate::image::{ByteImage, ImageState};
use crate::locator::{locate, locate_header, scan_end};
use vstd::prelude::*;

verus! {

/// The two release families that a dispatch can name.
#[allow(non_camel_case_types)]
#[derive(Clone, Copy, Debug, PartialEq, Eq)]
pub enum GameVersion {
    GameMaker8_0,
    GameMaker8_1,
}

/// Found by an earlier inspection of the container: the image is packed by
/// the generic compressor and has to be unpacked before anything is probed.
#[derive(Clone, Copy, Debug, PartialEq, Eq)]
pub struct CompressionHint {
    /// The largest size the unpacked image may have.
    pub max_size: u32,
    /// Where on disk the packed payload starts.
    pub disk_offset: u32,
}

/// What a protection probe read out of the loader it recognised. One record
/// parameterises one decryption.
#[derive(Clone, Copy, Debug, PartialEq, Eq)]
pub struct ProtectionSettings {
    pub load_offset: u32,
    pub header_start: u32,
    pub xor_mask: u32,
    pub add_mask: u32,
    pub sub_mask: u32,
}

/// The modes of the secondary XOR pass that the dispatcher asks for.
#[non_exhaustive]
#[derive(Clone, Copy, Debug, PartialEq, Eq)]
pub enum XorMethod {
    Normal,
}

/// The collaborator that the dispatcher needs to hear from next.
#[derive(Clone, Copy, Debug, PartialEq, Eq)]
pub enum Request {
    /// Unpack the image; answered by `Reply::Unpacked`.
    Unpack(CompressionHint),
    /// Probe for the first protection family; answered by `Reply::Probed`.
    ProbeFamilyA,
    /// Probe for the second protection family; answered by `Reply::Probed`.
    ProbeFamilyB,
    /// Decrypt the image in place; answered by `Reply::Decrypted`.
    Decrypt(ProtectionSettings),
    /// Run the secondary XOR pass in place from the cursor; answered by
    /// `Reply::XorApplied`.
    SecondaryXor(XorMethod),
    /// Validate as a plain first-family image; answered by `Reply::Detected`.
    DetectStandardA,
    /// Validate strictly as a plain second-family image; answered by
    /// `Reply::Detected`.
    DetectStandardBStrict,
    /// Validate leniently as a plain second-family image; answered by
    /// `Reply::Detected`.
    DetectStandardBLazy,
}

/// What a collaborator answered.
#[derive(Debug, PartialEq, Eq)]
pub enum Reply {
    /// The unpacked bytes.
    Unpacked(Vec<u8>),
    /// The settings of the protection that the probe recognised, if any.
    Probed(Option<ProtectionSettings>),
    /// Whether the decrypted image passed the transform's own check.
    Decrypted(bool),
    /// The secondary XOR pass ran.
    XorApplied,
    /// Whether the validator recognised the image.
    Detected(bool),
    /// The collaborator failed.
    Failed(ReaderError),
}

/// What a step has to tell a listener. It never bears on the outcome.
#[derive(Clone, Copy, Debug, PartialEq, Eq)]
pub enum Diagnostic {
    /// The image was unpacked to `size` bytes.
    Unpacked { size: usize },
    /// The loader of the first protection family was found.
    FamilyAFound(ProtectionSettings),
    /// The loader of the second protection family was found.
    FamilyBFound(ProtectionSettings),
    /// The scan for the moved header ran to the end of the image.
    HeaderNotFound,
}

/// Where a dispatch stands. Every stage but `Finished` waits for the answer
/// to one request.
#[derive(Clone, Copy, Debug, PartialEq, Eq)]
pub enum Stage {
    Unpacking(CompressionHint),
    ProbingFamilyA,
    ProbingFamilyB,
    DecryptingFamilyA(ProtectionSettings),
    DecryptingFamilyB(ProtectionSettings),
    /// The header was found at offset `header`; the XOR pass is running.
    ApplyingXor { header: u64 },
    DetectingStandardA,
    DetectingStandardBStrict,
    DetectingStandardBLazy,
    Finished(Result<GameVersion, ReaderError>),
}

/// The result of one step: the next stage, and a note for a listener.
#[derive(Clone, Copy, Debug, PartialEq, Eq)]
pub struct Step {
    pub stage: Stage,
    pub note: Option<Diagnostic>,
}

/// How far past `header_start` the cursor goes on the first-family path.
pub const FAMILY_A_SKIP: u64 = 12;

/// How far past the offset of the header the cursor goes on the
/// second-family path.
pub const FAMILY_B_SKIP: u64 = 20;

impl Request {
    /// `reply` is an answer to this request: the answer of its kind, or a
    /// failure.
    pub open spec fn answered_by(self, reply: Reply) -> bool {
        match reply {
            Reply::Failed(_) => true,
            Reply::Unpacked(_) => self is Unpack,
            Reply::Probed(_) => self is ProbeFamilyA || self is ProbeFamilyB,
            Reply::Decrypted(_) => self is Decrypt,
            Reply::XorApplied => self is SecondaryXor,
            Reply::Detected(_) => self is DetectStandardA || self is DetectStandardBStrict
                || self is DetectStandardBLazy,
        }
    }
}

impl Step {
    /// A step to `stage` with nothing to note.
    pub open spec fn quiet(stage: Stage) -> Step {
        Step { stage, note: None }
    }

    /// The step that ends the dispatch with `outcome`.
    pub open spec fn last(outcome: Result<GameVersion, ReaderError>) -> Step {
        Step::quiet(Stage::Finished(outcome))
    }
}

impl Stage {
    /// The stage a dispatch starts in: unpacking when there is a hint, the
    /// first probe when there is none.
    pub open spec fn first(hint: Option<CompressionHint>) -> Stage {
        match hint {
            Some(h) => Stage::Unpacking(h),
            None => Stage::ProbingFamilyA,
        }
    }

    /// The request whose answer this stage waits for.
    pub open spec fn pending(self) -> Option<Request> {
        match self {
            Stage::Unpacking(hint) => Some(Request::Unpack(hint)),
            Stage::ProbingFamilyA => Some(Request::ProbeFamilyA),
            Stage::ProbingFamilyB => Some(Request::ProbeFamilyB),
            Stage::DecryptingFamilyA(settings) => Some(Request::Decrypt(settings)),
            Stage::DecryptingFamilyB(settings) => Some(Request::Decrypt(settings)),
            Stage::ApplyingXor { .. } => Some(Request::SecondaryXor(XorMethod::Normal)),
            Stage::DetectingStandardA => Some(Request::DetectStandardA),
            Stage::DetectingStandardBStrict => Some(Request::DetectStandardBStrict),
            Stage::DetectingStandardBLazy => Some(Request::DetectStandardBLazy),
            Stage::Finished(_) => None,
        }
    }

    /// `reply` answers the request that this stage waits for.
    pub open spec fn accepts(self, reply: Reply) -> bool {
        match self.pending() {
            Some(request) => request.answered_by(reply),
            None => false,
        }
    }

    /// The largest number of requests that a dispatch in this stage can
    /// still make, the pending one included.
    pub open spec fn remaining(self) -> nat {
        match self {
            Stage::Unpacking(_) => 6,
            Stage::ProbingFamilyA => 5,
            Stage::ProbingFamilyB => 4,
            Stage::DetectingStandardA => 3,
            Stage::DecryptingFamilyB(_) => 2,
            Stage::DetectingStandardBStrict => 2,
            Stage::DecryptingFamilyA(_) => 1,
            Stage::ApplyingXor { .. } => 1,
            Stage::DetectingStandardBLazy => 1,
            Stage::Finished(_) => 0,
        }
    }

    /// The first-family path once decryption succeeded: the cursor goes
    /// [`FAMILY_A_SKIP`] bytes past `header_start`, and the dispatch ends.
    pub open spec fn after_decrypt_a(settings: ProtectionSettings, image: ImageState) -> (
        Step,
        ImageState,
    ) {
        match image.seek(settings.header_start + FAMILY_A_SKIP) {
            Ok(moved) => (Step::last(Ok(GameVersion::GameMaker8_0)), moved),
            Err(e) => (Step::last(Err(e)), image),
        }
    }

    /// The second-family path once decryption succeeded: the header is
    /// scanned for from `header_start + load_offset`. Found, the XOR pass is
    /// next; not found, the dispatch ends with `UnknownFormat`.
    pub open spec fn after_decrypt_b(settings: ProtectionSettings, image: ImageState) -> (
        Step,
        ImageState,
    ) {
        let start = settings.header_start + settings.load_offset;
        let left = image.at(scan_end(image, start));
        match locate(image.bytes, start) {
            Some(f) => (Step::quiet(Stage::ApplyingXor { header: f as u64 }), left),
            None => (
                Step {
                    stage: Stage::Finished(Err(ReaderError::UnknownFormat)),
                    note: Some(Diagnostic::HeaderNotFound),
                },
                left,
            ),
        }
    }

    /// The second-family path once the XOR pass ran: the cursor goes to
    /// [`FAMILY_B_SKIP`] bytes past the offset `header` at which the scan
    /// found the header, wherever the XOR pass left it, and the dispatch
    /// ends.
    pub open spec fn after_xor(header: u64, image: ImageState) -> (Step, ImageState) {
        match image.seek(header + FAMILY_B_SKIP) {
            Ok(moved) => (Step::last(Ok(GameVersion::GameMaker8_1)), moved),
            Err(e) => (Step::last(Err(e)), image),
        }
    }

    /// The step that `reply` causes in this stage, and the image after it,
    /// where `image` is the image as the collaborator left it. A reply that
    /// the stage does not accept causes none: stage and image stay.
    pub open spec fn after(self, reply: Reply, image: ImageState) -> (Step, ImageState) {
        match (self, reply) {
            (Stage::Finished(_), _) => (Step::quiet(self), image),
            (_, Reply::Failed(e)) => (Step::last(Err(e)), image),
            (Stage::Unpacking(_), Reply::Unpacked(bytes)) => (
                Step {
                    stage: Stage::ProbingFamilyA,
                    note: Some(Diagnostic::Unpacked { size: bytes@.len() as usize }),
                },
                ImageState { bytes: bytes@, cursor: 0 },
            ),
            (Stage::ProbingFamilyA, Reply::Probed(Some(settings))) => (
                Step {
                    stage: Stage::DecryptingFamilyA(settings),
                    note: Some(Diagnostic::FamilyAFound(settings)),
                },
                image,
            ),
            (Stage::ProbingFamilyA, Reply::Probed(None)) => (
                Step::quiet(Stage::ProbingFamilyB),
                image,
            ),
            (Stage::ProbingFamilyB, Reply::Probed(Some(settings))) => (
                Step {
                    stage: Stage::DecryptingFamilyB(settings),
                    note: Some(Diagnostic::FamilyBFound(settings)),
                },
                image,
            ),
            (Stage::ProbingFamilyB, Reply::Probed(None)) => (
                Step::quiet(Stage::DetectingStandardA),
                image,
            ),
            (Stage::DecryptingFamilyA(settings), Reply::Decrypted(true)) => Stage::after_decrypt_a(
                settings,
                image,
            ),
            (Stage::DecryptingFamilyB(settings), Reply::Decrypted(true)) => Stage::after_decrypt_b(
                settings,
                image,
            ),
            (Stage::DecryptingFamilyA(_), Reply::Decrypted(false)) => (
                Step::last(Err(ReaderError::UnknownFormat)),
                image,
            ),
            (Stage::DecryptingFamilyB(_), Reply::Decrypted(false)) => (
                Step::last(Err(ReaderError::UnknownFormat)),
                image,
            ),
            (Stage::ApplyingXor { header }, Reply::XorApplied) => Stage::after_xor(header, image),
            (Stage::DetectingStandardA, Reply::Detected(true)) => (
                Step::last(Ok(GameVersion::GameMaker8_0)),
                image,
            ),
            (Stage::DetectingStandardA, Reply::Detected(false)) => (
                Step::quiet(Stage::DetectingStandardBStrict),
                image,
            ),
            (Stage::DetectingStandardBStrict, Reply::Detected(true)) => (
                Step::last(Ok(GameVersion::GameMaker8_1)),
                image,
            ),
            (Stage::DetectingStandardBStrict, Reply::Detected(false)) => (
                Step::quiet(Stage::DetectingStandardBLazy),
                image,
            ),
            (Stage::DetectingStandardBLazy, Reply::Detected(true)) => (
                Step::last(Ok(GameVersion::GameMaker8_1)),
                image,
            ),
            (Stage::DetectingStandardBLazy, Reply::Detected(false)) => (
                Step::last(Err(ReaderError::UnknownFormat)),
                image,
            ),
            _ => (Step::quiet(self), image),
        }
    }

    /// The stage that follows this one on `reply`.
    pub open spec fn next(self, reply: Reply, image: ImageState) -> Stage {
        self.after(reply, image).0.stage
    }

    /// The request to carry out next, or `None` once the dispatch is over.
    pub fn request(&self) -> (request: Option<Request>)
        ensures
            request == self.pending(),
    {
        match *self {
            Stage::Unpacking(hint) => Some(Request::Unpack(hint)),
            Stage::ProbingFamilyA => Some(Request::ProbeFamilyA),
            Stage::ProbingFamilyB => Some(Request::ProbeFamilyB),
            Stage::DecryptingFamilyA(settings) => Some(Request::Decrypt(settings)),
            Stage::DecryptingFamilyB(settings) => Some(Request::Decrypt(settings)),
            Stage::ApplyingXor { .. } => Some(Request::SecondaryXor(XorMethod::Normal)),
            Stage::DetectingStandardA => Some(Request::DetectStandardA),
            Stage::DetectingStandardBStrict => Some(Request::DetectStandardBStrict),
            Stage::DetectingStandardBLazy => Some(Request::DetectStandardBLazy),
            Stage::Finished(_) => None,
        }
    }

    /// The outcome of the dispatch once it is over, `None` before.
    pub fn outcome(&self) -> (outcome: Option<Result<GameVersion, ReaderError>>)
        ensures
            outcome == (match *self {
                Stage::Finished(result) => Some(result),
                _ => None,
            }),
    {
        match *self {
            Stage::Finished(result) => Some(result),
            _ => None,
        }
    }
}

/// Starts a dispatch: with a hint the image is unpacked first, without one
/// the first probe runs on the image as it is.
pub fn begin(hint: Option<CompressionHint>) -> (stage: Stage)
    ensures
        stage == Stage::first(hint),
{
    match hint {
        Some(h) => Stage::Unpacking(h),
        None => Stage::ProbingFamilyA,
    }
}

fn quiet(stage: Stage) -> (step: Step)
    ensures
        step == Step::quiet(stage),
{
    Step { stage, note: None }
}

fn last(outcome: Result<GameVersion, ReaderError>) -> (step: Step)
    ensures
        step == Step::last(outcome),
{
    Step { stage: Stage::Finished(outcome), note: None }
}

fn settle_family_a(settings: ProtectionSettings, image: &mut ByteImage) -> (step: Step)
    ensures
        (step, final(image)@) == Stage::after_decrypt_a(settings, old(image)@),
{
    match image.seek(settings.header_start as u64 + FAMILY_A_SKIP) {
        Ok(()) => last(Ok(GameVersion::GameMaker8_0)),
        Err(e) => last(Err(e)),
    }
}

fn search_family_b(settings: ProtectionSettings, image: &mut ByteImage) -> (step: Step)
    ensures
        (step, final(image)@) == Stage::after_decrypt_b(settings, old(image)@),
{
    let start: u64 = settings.header_start as u64 + settings.load_offset as u64;
    match locate_header(image, start) {
        Ok(Some(header)) => quiet(Stage::ApplyingXor { header }),
        Ok(None) => Step {
            stage: Stage::Finished(Err(ReaderError::UnknownFormat)),
            note: Some(Diagnostic::HeaderNotFound),
        },
        Err(e) => last(Err(e)),
    }
}

fn settle_family_b(header: u64, image: &mut ByteImage) -> (step: Step)
    ensures
        (step, final(image)@) == Stage::after_xor(header, old(image)@),
{
    let len: u64 = image.len() as u64;
    if header > len || len - header < FAMILY_B_SKIP {
        return last(Err(ReaderError::Read));
    }
    match image.seek(header + FAMILY_B_SKIP) {
        Ok(()) => last(Ok(GameVersion::GameMaker8_1)),
        Err(e) => last(Err(e)),
    }
}

/// Takes the dispatch one step on: `reply` is what the collaborator named by
/// `stage.request()` answered, and `image` is the image as that collaborator
/// left it.
///
/// The detection order is fixed and the first match commits: a probe that
/// recognises its family leads to that family's decryption and never to a
/// later branch, and every failure ends the dispatch. Returns `None`, and
/// leaves the image alone, when `reply` is no answer to the pending request.
pub fn advance(stage: Stage, reply: Reply, image: &mut ByteImage) -> (step: Option<Step>)
    ensures
        stage.accepts(reply) ==> step == Some(stage.after(reply, old(image)@).0)
            && final(image)@ == stage.after(reply, old(image)@).1,
        !stage.accepts(reply) ==> step.is_none() && final(image)@ == old(image)@,
{
    match (stage, reply) {
        (Stage::Finished(_), _) => None,
        (_, Reply::Failed(e)) => Some(last(Err(e))),
        (Stage::Unpacking(_), Reply::Unpacked(bytes)) => {
            let size: usize = bytes.len();
            *image = ByteImage::new(bytes);
            Some(Step { stage: Stage::ProbingFamilyA, note: Some(Diagnostic::Unpacked { size }) })
        },
        (Stage::ProbingFamilyA, Reply::Probed(Some(settings))) => Some(
            Step {
                stage: Stage::DecryptingFamilyA(settings),
                note: Some(Diagnostic::FamilyAFound(settings)),
            },
        ),
        (Stage::ProbingFamilyA, Reply::Probed(None)) => Some(quiet(Stage::ProbingFamilyB)),
        (Stage::ProbingFamilyB, Reply::Probed(Some(settings))) => Some(
            Step {
                stage: Stage::DecryptingFamilyB(settings),
                note: Some(Diagnostic::FamilyBFound(settings)),
            },
        ),
        (Stage::ProbingFamilyB, Reply::Probed(None)) => Some(quiet(Stage::DetectingStandardA)),
        (Stage::DecryptingFamilyA(settings), Reply::Decrypted(true)) => Some(
            settle_family_a(settings, image),
        ),
        (Stage::DecryptingFamilyB(settings), Reply::Decrypted(true)) => Some(
            search_family_b(settings, image),
        ),
        (Stage::DecryptingFamilyA(_), Reply::Decrypted(false)) => Some(
            last(Err(ReaderError::UnknownFormat)),
        ),
        (Stage::DecryptingFamilyB(_), Reply::Decrypted(false)) => Some(
            last(Err(ReaderError::UnknownFormat)),
        ),
        (Stage::ApplyingXor { header }, Reply::XorApplied) => Some(
            settle_family_b(header, image),
        ),
        (Stage::DetectingStandardA, Reply::Detected(true)) => Some(
            last(Ok(GameVersion::GameMaker8_0)),
        ),
        (Stage::DetectingStandardA, Reply::Detected(false)) => Some(
            quiet(Stage::DetectingStandardBStrict),
        ),
        (Stage::DetectingStandardBStrict, Reply::Detected(true)) => Some(
            last(Ok(GameVersion::GameMaker8_1)),
        ),
        (Stage::DetectingStandardBStrict, Reply::Detected(false)) => Some(
            quiet(Stage::DetectingStandardBLazy),
        ),
        (Stage::DetectingStandardBLazy, Reply::Detected(true)) => Some(
            last(Ok(GameVersion::GameMaker8_1)),
        ),
        (Stage::DetectingStandardBLazy, Reply::Detected(false)) => Some(
            last(Err(ReaderError::UnknownFormat)),
        ),
        _ => None,
    }
}

} // verus!
