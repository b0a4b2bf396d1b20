//! The batch pipeline: what is decided for one container and for a whole
//! run, apart from reading, writing and scheduling.

use crate::decoder::decode;
use crate::decoder::lemma_mask_round_trip;
use crate::decoder::xor_mask;
use crate::path_mapper::map_path;
use crate::path_mapper::mapped_path;
use crate::path_text::is_extension;
use crate::path_text::parent;
use crate::path_text::parent_path;
use crate::path_text::stripped_prefix;
use crate::signature::detect;
use crate::signature::find_xor_key;
use crate::signature::is_first_match;
use crate::signature::lemma_masked_signature_is_detected;
use crate::signature::signature_table;
use crate::signature::ImageFormat;
use vstd::prelude::*;

verus! {

/// Why one container was not restored. The rest of the batch goes on.
#[derive(Clone, Copy, Debug, PartialEq, Eq, Structural)]
pub enum PerFileError {
    /// Reading the container, creating a directory or writing the image
    /// failed.
    IoError,
    /// The container has fewer than two bytes.
    MalformedContainer,
    /// The two leading bytes match no known signature.
    UnsupportedFormat,
    /// The container does not lie under the source root.
    PathMappingError,
}

/// The image bytes and the format of the container `cipher`, or why it has
/// none: a container of fewer than two bytes is malformed, one whose leading
/// bytes the detector does not know is unsupported, and any other is
/// unmasked in full with the detected key.
pub open spec fn unmasked(cipher: Seq<u8>) -> Result<(Seq<u8>, ImageFormat), PerFileError> {
    if cipher.len() < 2 {
        Err(PerFileError::MalformedContainer)
    } else {
        match detect(cipher[0], cipher[1]) {
            Some((key, format)) => Ok((xor_mask(cipher, key), format)),
            None => Err(PerFileError::UnsupportedFormat),
        }
    }
}

/// Detects the key of a container from its first two bytes and unmasks the
/// whole container with it. Returns the image bytes and the extension of
/// the detected format.
pub fn unmask(cipher: &[u8]) -> (r: Result<(Vec<u8>, &'static str), PerFileError>)
    ensures
        match r {
            Ok((plain, ext)) => unmasked(cipher@) matches Ok((image, format)) && plain@ == image
                && ext@ == format.extension_text(),
            Err(e) => unmasked(cipher@) == Err::<(Seq<u8>, ImageFormat), PerFileError>(e),
        },
{
    if cipher.len() < 2 {
        return Err(PerFileError::MalformedContainer);
    }
    match find_xor_key(cipher[0], cipher[1]) {
        Ok((key, ext)) => Ok((decode(cipher, key), ext)),
        Err(_) => Err(PerFileError::UnsupportedFormat),
    }
}

/// The extension of every format can stand as a file extension: none holds
/// a path separator.
pub proof fn lemma_format_extension_is_extension(format: ImageFormat)
    ensures
        is_extension(format.extension_text()),
{
    reveal_strlit("jpg");
    reveal_strlit("png");
    reveal_strlit("gif");
    reveal_strlit("tiff");
    reveal_strlit("bmp");
}

/// A restored image, ready to be written.
#[derive(Debug, PartialEq, Eq)]
pub struct Restored {
    /// Where the image goes.
    pub target: String,
    /// The directory that has to exist before the image is written, where
    /// the target path has a parent.
    pub parent: Option<String>,
    /// The unmasked bytes of the image.
    pub plain: Vec<u8>,
}

/// A restored image as plain values.
pub struct RestoredView {
    pub target: Seq<char>,
    pub parent: Option<Seq<char>>,
    pub plain: Seq<u8>,
}

impl View for Restored {
    type V = RestoredView;

    open spec fn view(&self) -> RestoredView {
        RestoredView {
            target: self.target@,
            parent: match self.parent {
                Some(dir) => Some(dir@),
                None => None,
            },
            plain: self.plain@,
        }
    }
}

/// What becomes of the container `cipher` found at `file`: the failure of
/// unmasking it, if that fails; else a path mapping failure where `file` is
/// not under `source_dir`; else the image with its path under `target_dir`
/// and that path's parent.
pub open spec fn restored(
    cipher: Seq<u8>,
    file: Seq<char>,
    source_dir: Seq<char>,
    target_dir: Seq<char>,
) -> Result<RestoredView, PerFileError> {
    match unmasked(cipher) {
        Err(e) => Err(e),
        Ok((plain, format)) => match mapped_path(
            file,
            source_dir,
            target_dir,
            format.extension_text(),
        ) {
            None => Err(PerFileError::PathMappingError),
            Some(target) => Ok(RestoredView { target, parent: parent_path(target), plain }),
        },
    }
}

/// Restores the image of one container: everything between reading the
/// container at `file` and writing the image. The caller creates the parent
/// directory and writes the bytes at the target path.
pub fn restore(cipher: &[u8], file: &str, source_dir: &str, target_dir: &str) -> (r: Result<
    Restored,
    PerFileError,
>)
    ensures
        match r {
            Ok(image) => restored(cipher@, file@, source_dir@, target_dir@) == Ok::<
                RestoredView,
                PerFileError,
            >(image@),
            Err(e) => restored(cipher@, file@, source_dir@, target_dir@) == Err::<
                RestoredView,
                PerFileError,
            >(e),
        },
{
    match unmask(cipher) {
        Err(e) => Err(e),
        Ok((plain, ext)) => {
            proof {
                lemma_format_extension_is_extension(unmasked(cipher@)->Ok_0.1);
            }
            match map_path(file, source_dir, target_dir, ext) {
                Err(_) => Err(PerFileError::PathMappingError),
                Ok(target) => {
                    let parent = parent(target.as_str());
                    Ok(Restored { target, parent, plain })
                },
            }
        },
    }
}

/// Restoring a masked image gives the format of its signature whatever the
/// key, and gives the image's own bytes back where its signature is the
/// first of the table with its difference. The second TIFF signature is the
/// one that is not: the detector takes such an image for one with the first
/// TIFF signature.
pub proof fn lemma_unmask_restores_masked_image(image: Seq<u8>, index: int, key: u8)
    requires
        image.len() >= 2,
        0 <= index < signature_table().len(),
        image[0] == signature_table()[index].first,
        image[1] == signature_table()[index].second,
    ensures
        unmasked(xor_mask(image, key)) matches Ok((plain, format)) && format
            == signature_table()[index].format && (is_first_match(
            signature_table()[index].difference(),
            index,
        ) ==> plain == image),
{
    lemma_masked_signature_is_detected(index, key);
    lemma_mask_round_trip(image, key);
}

/// A masked image whose container lies under the source root is restored,
/// whatever the key: to its own bytes, at the mapped path with the extension
/// of its format. This is stated of the images whose signature is the first
/// of the table with its difference.
pub proof fn lemma_restore_gives_image_back(
    image: Seq<u8>,
    index: int,
    key: u8,
    file: Seq<char>,
    source_dir: Seq<char>,
    target_dir: Seq<char>,
)
    requires
        image.len() >= 2,
        is_first_match(signature_table()[index].difference(), index),
        image[0] == signature_table()[index].first,
        image[1] == signature_table()[index].second,
        stripped_prefix(file, source_dir) is Some,
    ensures
        restored(xor_mask(image, key), file, source_dir, target_dir) matches Ok(out)
            && out.plain == image && Some(out.target) == mapped_path(
            file,
            source_dir,
            target_dir,
            signature_table()[index].format.extension_text(),
        ) && out.parent == parent_path(out.target),
{
    lemma_unmask_restores_masked_image(image, index, key);
}

/// How the processing of one container ended.
#[derive(Clone, Copy, Debug, PartialEq, Eq, Structural)]
pub enum BatchOutcome {
    Success,
    Failure(PerFileError),
}

/// The report of a run: how many containers were restored, out of how many
/// that were found.
#[derive(Clone, Copy, Debug, PartialEq, Eq, Structural)]
pub struct Summary {
    pub succeeded: usize,
    pub total: usize,
}

impl Summary {
    /// No more containers were restored than were found.
    pub open spec fn well_formed(self) -> bool {
        self.succeeded <= self.total
    }
}

/// The number of successes among `outcomes`.
pub open spec fn succeeded_count(outcomes: Seq<BatchOutcome>) -> nat {
    outcomes.filter(|outcome: BatchOutcome| outcome is Success).len()
}

/// Counts the outcomes of a run. Every outcome counts towards the total,
/// and the successes towards the restored ones, in whatever order the
/// outcomes came in.
pub fn summarize(outcomes: &[BatchOutcome]) -> (summary: Summary)
    ensures
        summary.total == outcomes@.len(),
        summary.succeeded == succeeded_count(outcomes@),
        summary.well_formed(),
{
    let mut succeeded: usize = 0;
    let mut i: usize = 0;
    while i < outcomes.len()
        invariant
            i <= outcomes@.len(),
            succeeded <= i,
            succeeded == succeeded_count(outcomes@.take(i as int)),
        decreases outcomes@.len() - i,
    {
        proof {
            assert(outcomes@.take(i + 1) =~= outcomes@.take(i as int).push(outcomes@[i as int]));
            lemma_outcome_counts_once(outcomes@.take(i as int), outcomes@[i as int]);
        }
        match outcomes[i] {
            BatchOutcome::Success => {
                succeeded += 1;
            },
            BatchOutcome::Failure(_) => {},
        }
        i += 1;
    }
    proof {
        assert(outcomes@.take(i as int) =~= outcomes@);
    }
    Summary { succeeded, total: outcomes.len() }
}

/// One more outcome adds one to the total, and one to the successes if it
/// is a success: a failure takes nothing from what the others achieved.
pub proof fn lemma_outcome_counts_once(outcomes: Seq<BatchOutcome>, outcome: BatchOutcome)
    ensures
        outcomes.push(outcome).len() == outcomes.len() + 1,
        succeeded_count(outcomes.push(outcome)) == succeeded_count(outcomes) + (if outcome
            is Success {
            1nat
        } else {
            0nat
        }),
{
    outcomes.lemma_filter_len_push(|outcome: BatchOutcome| outcome is Success, outcome);
}

/// The successes among the outcomes are as many as the multiset of the
/// outcomes holds.
pub proof fn lemma_succeeded_count_is_multiplicity(outcomes: Seq<BatchOutcome>)
    ensures
        succeeded_count(outcomes) == outcomes.to_multiset().count(BatchOutcome::Success),
    decreases outcomes.len(),
{
    broadcast use vstd::seq_lib::group_to_multiset_ensures;

    if outcomes.len() == 0 {
        assert(succeeded_count(outcomes) == 0) by {
            outcomes.lemma_filter_len(|outcome: BatchOutcome| outcome is Success);
        }
    } else {
        let front = outcomes.drop_last();
        assert(outcomes =~= front.push(outcomes.last()));
        lemma_succeeded_count_is_multiplicity(front);
        lemma_outcome_counts_once(front, outcomes.last());
    }
}

/// The counts of a run do not depend on the order in which the outcomes
/// came in: two runs with the same outcomes, in any order, have the same
/// total and the same number of successes.
pub proof fn lemma_counts_ignore_order(first: Seq<BatchOutcome>, second: Seq<BatchOutcome>)
    requires
        first.to_multiset() == second.to_multiset(),
    ensures
        first.len() == second.len(),
        succeeded_count(first) == succeeded_count(second),
{
    first.to_multiset_ensures();
    second.to_multiset_ensures();
    lemma_succeeded_count_is_multiplicity(first);
    lemma_succeeded_count_is_multiplicity(second);
}

} // verus!
