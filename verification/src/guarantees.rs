//! What holds of every dispatch, proved from the step function's definition.

use crate::dispatch::{
    CompressionHint, Diagnostic, GameVersion, ProtectionSettings, Reply, Request, Stage, Step,
    XorMethod,
};
use crate::error::ReaderError;
use crate::image::ImageState;
use crate::locator::{
    first_header, header_at, lemma_first_header_is_located, lemma_locate_cases, locate, scanned,
};
use vstd::prelude::*;

verus! {

/// A stage on a protected branch, or past the end: a probe has matched, or
/// the dispatch is over.
pub open spec fn committed(stage: Stage) -> bool {
    stage is DecryptingFamilyA || stage is DecryptingFamilyB || stage is ApplyingXor
        || stage is Finished
}

/// With a compression hint the first request is the unpacking, not a probe.
/// Its answer replaces the image: what follows sees the unpacked bytes from
/// offset 0 and nothing of the image that was packed. A failure to unpack
/// ends the dispatch with the collaborator's error.
pub proof fn hint_unpacks_before_any_probe(
    hint: CompressionHint,
    unpacked: Vec<u8>,
    packed: ImageState,
    e: ReaderError,
)
    ensures
        Stage::first(Some(hint)) == Stage::Unpacking(hint),
        Stage::Unpacking(hint).pending() == Some(Request::Unpack(hint)),
        Stage::Unpacking(hint).after(Reply::Unpacked(unpacked), packed) == (
            Step {
                stage: Stage::ProbingFamilyA,
                note: Some(Diagnostic::Unpacked { size: unpacked@.len() as usize }),
            },
            ImageState { bytes: unpacked@, cursor: 0 },
        ),
        Stage::Unpacking(hint).after(Reply::Failed(e), packed) == (Step::last(Err(e)), packed),
        Stage::first(None) == Stage::ProbingFamilyA,
{
}

/// An image with the loader of the first family, whose decryption succeeds,
/// is of the first version, and the cursor ends twelve bytes past
/// `header_start`. This needs those twelve bytes to lie inside the image.
pub proof fn first_family_path(
    settings: ProtectionSettings,
    probed: ImageState,
    decrypted: ImageState,
)
    requires
        settings.header_start + 12 <= decrypted.bytes.len(),
    ensures
        Stage::ProbingFamilyA.next(Reply::Probed(Some(settings)), probed)
            == Stage::DecryptingFamilyA(settings),
        Stage::DecryptingFamilyA(settings).pending() == Some(Request::Decrypt(settings)),
        Stage::DecryptingFamilyA(settings).after(Reply::Decrypted(true), decrypted) == (
            Step::last(Ok(GameVersion::GameMaker8_0)),
            decrypted.at(settings.header_start + 12),
        ),
{
}

/// An image with the loader of the second family and none of the first,
/// whose decryption succeeds and in which the scan from
/// `header_start + load_offset` first finds a header at offset `header`, is
/// of the second version. The XOR pass is asked for in its normal mode, with
/// the cursor just past the eight bytes that the scan read last, and the
/// cursor ends twenty bytes past `header`. This needs those twenty bytes to
/// lie inside the image as the XOR pass left it.
pub proof fn second_family_path(
    settings: ProtectionSettings,
    header: u64,
    probed: ImageState,
    decrypted: ImageState,
    deobfuscated: ImageState,
)
    requires
        first_header(decrypted.bytes, settings.header_start + settings.load_offset, header as int),
        header + 20 <= deobfuscated.bytes.len(),
    ensures
        Stage::ProbingFamilyA.next(Reply::Probed(None), probed) == Stage::ProbingFamilyB,
        Stage::ProbingFamilyB.next(Reply::Probed(Some(settings)), probed)
            == Stage::DecryptingFamilyB(settings),
        Stage::DecryptingFamilyB(settings).pending() == Some(Request::Decrypt(settings)),
        Stage::DecryptingFamilyB(settings).after(Reply::Decrypted(true), decrypted) == (
            Step::quiet(Stage::ApplyingXor { header }),
            decrypted.at(header + 8),
        ),
        (Stage::ApplyingXor { header }).pending() == Some(
            Request::SecondaryXor(XorMethod::Normal),
        ),
        (Stage::ApplyingXor { header }).after(Reply::XorApplied, deobfuscated) == (
            Step::last(Ok(GameVersion::GameMaker8_1)),
            deobfuscated.at(header + 20),
        ),
{
    lemma_first_header_is_located(
        decrypted.bytes,
        settings.header_start + settings.load_offset,
        header as int,
    );
}

/// A scan that finds a header at none of the offsets it reads ends the
/// dispatch with `UnknownFormat`, although the decryption reported success.
/// The bytes stay as the decryption left them, and neither the XOR pass nor
/// a standard detector is asked for.
pub proof fn exhausted_scan_is_unknown_format(settings: ProtectionSettings, decrypted: ImageState)
    requires
        forall|j: int|
            scanned(decrypted.bytes, settings.header_start + settings.load_offset, j)
                ==> !#[trigger] header_at(decrypted.bytes, j),
    ensures
        locate(decrypted.bytes, settings.header_start + settings.load_offset).is_none(),
        Stage::DecryptingFamilyB(settings).after(Reply::Decrypted(true), decrypted).0 == (Step {
            stage: Stage::Finished(Err(ReaderError::UnknownFormat)),
            note: Some(Diagnostic::HeaderNotFound),
        }),
        Stage::DecryptingFamilyB(settings).after(Reply::Decrypted(true), decrypted).1.bytes
            == decrypted.bytes,
{
}

/// A scan whose start leaves eight bytes or fewer to the end reads nothing:
/// the dispatch ends with `UnknownFormat` and the image is untouched,
/// whatever stands in those bytes.
pub proof fn scan_from_the_last_bytes_is_unknown_format(
    settings: ProtectionSettings,
    decrypted: ImageState,
)
    requires
        settings.header_start + settings.load_offset + 8 >= decrypted.bytes.len(),
        decrypted.wf(),
    ensures
        Stage::DecryptingFamilyB(settings).after(Reply::Decrypted(true), decrypted) == (
            Step {
                stage: Stage::Finished(Err(ReaderError::UnknownFormat)),
                note: Some(Diagnostic::HeaderNotFound),
            },
            decrypted,
        ),
{
}

/// After a successful decryption of the second family the dispatch ends
/// with `UnknownFormat` exactly when no scanned offset holds a header; it
/// never ends there with a read error.
pub proof fn second_family_scan_decides(settings: ProtectionSettings, decrypted: ImageState)
    ensures
        ({
            let start = settings.header_start + settings.load_offset;
            let next = Stage::DecryptingFamilyB(settings).next(Reply::Decrypted(true), decrypted);
            &&& next == Stage::Finished(Err(ReaderError::UnknownFormat)) <==> forall|j: int|
                scanned(decrypted.bytes, start, j) ==> !#[trigger] header_at(decrypted.bytes, j)
            &&& next is Finished || next is ApplyingXor
            &&& next != Stage::Finished(Err(ReaderError::Read))
        }),
{
    lemma_locate_cases(decrypted.bytes, settings.header_start + settings.load_offset);
}

/// A decryption that reports failure ends the dispatch with `UnknownFormat`
/// in either family: no other branch is tried.
pub proof fn failed_decryption_is_unknown_format(settings: ProtectionSettings, image: ImageState)
    ensures
        Stage::DecryptingFamilyA(settings).after(Reply::Decrypted(false), image) == (
            Step::last(Err(ReaderError::UnknownFormat)),
            image,
        ),
        Stage::DecryptingFamilyB(settings).after(Reply::Decrypted(false), image) == (
            Step::last(Err(ReaderError::UnknownFormat)),
            image,
        ),
{
}

/// The first family has priority: once its probe has matched, the dispatch
/// is committed, whatever else the image would satisfy.
pub proof fn first_family_match_commits(settings: ProtectionSettings, image: ImageState)
    ensures
        committed(Stage::ProbingFamilyA.next(Reply::Probed(Some(settings)), image)),
{
}

/// A committed dispatch stays committed: whatever is answered, it goes on
/// along its branch or ends, and never asks for a probe or a standard
/// detector again.
pub proof fn committed_branch_never_falls_back(stage: Stage, reply: Reply, image: ImageState)
    requires
        committed(stage),
    ensures
        committed(stage.next(reply, image)),
        stage.pending() matches Some(request) ==> request is Decrypt || request is SecondaryXor,
        stage is DecryptingFamilyA && stage.accepts(reply) ==> stage.next(reply, image)
            is Finished,
{
}

/// Without a protection loader the standard detectors are asked in order:
/// the first family's, then the second family's strict one, then its lenient
/// one. The first that recognises the image names the version.
pub proof fn standard_detection_order(image: ImageState)
    ensures
        Stage::ProbingFamilyA.next(Reply::Probed(None), image) == Stage::ProbingFamilyB,
        Stage::ProbingFamilyB.next(Reply::Probed(None), image) == Stage::DetectingStandardA,
        Stage::DetectingStandardA.pending() == Some(Request::DetectStandardA),
        Stage::DetectingStandardA.next(Reply::Detected(true), image) == Stage::Finished(
            Ok(GameVersion::GameMaker8_0),
        ),
        Stage::DetectingStandardA.next(Reply::Detected(false), image)
            == Stage::DetectingStandardBStrict,
        Stage::DetectingStandardBStrict.pending() == Some(Request::DetectStandardBStrict),
        Stage::DetectingStandardBStrict.next(Reply::Detected(true), image) == Stage::Finished(
            Ok(GameVersion::GameMaker8_1),
        ),
        Stage::DetectingStandardBStrict.next(Reply::Detected(false), image)
            == Stage::DetectingStandardBLazy,
        Stage::DetectingStandardBLazy.pending() == Some(Request::DetectStandardBLazy),
        Stage::DetectingStandardBLazy.next(Reply::Detected(true), image) == Stage::Finished(
            Ok(GameVersion::GameMaker8_1),
        ),
{
}

/// An image that no probe and no standard detector recognises is of unknown
/// format, whatever the collaborators did to it on the way.
pub proof fn no_branch_matches(
    a: ImageState,
    b: ImageState,
    c: ImageState,
    d: ImageState,
    e: ImageState,
)
    ensures
        Stage::ProbingFamilyA.next(Reply::Probed(None), a).next(Reply::Probed(None), b).next(
            Reply::Detected(false),
            c,
        ).next(Reply::Detected(false), d).next(Reply::Detected(false), e) == Stage::Finished(
            Err(ReaderError::UnknownFormat),
        ),
{
}

/// A collaborator's failure ends the dispatch at once, with the
/// collaborator's own error and the image as the collaborator left it.
pub proof fn failure_is_final(stage: Stage, e: ReaderError, image: ImageState)
    requires
        !(stage is Finished),
    ensures
        stage.accepts(Reply::Failed(e)),
        stage.after(Reply::Failed(e), image) == (Step::last(Err(e)), image),
{
}

/// Nothing is retried: every answer uses up the pending request, so a
/// dispatch makes at most six requests, five without a hint, and decrypts at
/// most once.
pub proof fn every_answer_uses_up_a_request(stage: Stage, reply: Reply, image: ImageState)
    requires
        stage.accepts(reply),
    ensures
        stage.next(reply, image).remaining() < stage.remaining(),
        stage.remaining() <= 6,
        Stage::ProbingFamilyA.remaining() == 5,
        stage.pending() matches Some(Request::Decrypt(_)) ==> !(stage.next(reply, image).pending()
            matches Some(Request::Decrypt(_))),
{
}

/// The dispatcher itself never writes a byte. But for the step that takes in
/// the unpacked image, a step leaves the bytes as the collaborator left
/// them; when it does not move the cursor either, the image is untouched.
pub proof fn steps_leave_the_bytes(stage: Stage, reply: Reply, image: ImageState)
    requires
        !(reply is Unpacked),
    ensures
        stage.after(reply, image).1.bytes == image.bytes,
        !(reply is Decrypted) && !(reply is XorApplied) ==> stage.after(reply, image).1 == image,
{
}

} // verus!
