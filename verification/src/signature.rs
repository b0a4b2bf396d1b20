//! The signature table and the key detector.
//!
//! Every recognized image format starts with two known bytes. Masking both
//! with one key leaves their XOR difference unchanged, so the difference of
//! a container's first two bytes names the format, and the first byte then
//! gives the key.

use vstd::prelude::*;

verus! {

/// An image format that the detector recognizes.
#[derive(Clone, Copy, Debug, PartialEq, Eq, Structural)]
pub enum ImageFormat {
    Jpeg,
    Png,
    Gif,
    Tiff,
    Bmp,
}

impl ImageFormat {
    /// The canonical file extension of the format, without a dot.
    pub open spec fn extension_text(self) -> Seq<char> {
        match self {
            ImageFormat::Jpeg => "jpg"@,
            ImageFormat::Png => "png"@,
            ImageFormat::Gif => "gif"@,
            ImageFormat::Tiff => "tiff"@,
            ImageFormat::Bmp => "bmp"@,
        }
    }

    /// The canonical file extension of the format, without a dot.
    pub fn extension(self) -> (ext: &'static str)
        ensures
            ext@ == self.extension_text(),
    {
        match self {
            ImageFormat::Jpeg => "jpg",
            ImageFormat::Png => "png",
            ImageFormat::Gif => "gif",
            ImageFormat::Tiff => "tiff",
            ImageFormat::Bmp => "bmp",
        }
    }
}

/// One line of the signature table: the two leading bytes of an unmasked
/// image and the format that they announce.
#[derive(Clone, Copy, Debug, PartialEq, Eq, Structural)]
pub struct SignatureEntry {
    pub first: u8,
    pub second: u8,
    pub format: ImageFormat,
}

impl SignatureEntry {
    /// The XOR difference of the two leading bytes. Masking both bytes with
    /// one key does not change it.
    pub open spec fn difference(self) -> u8 {
        self.first ^ self.second
    }
}

/// The number of entries of the signature table.
pub const SIGNATURE_COUNT: usize = 6;

/// The signature table, in the order in which the detector tries its entries.
pub open spec fn signature_table() -> Seq<SignatureEntry> {
    seq![
        SignatureEntry { first: 0xff, second: 0xd8, format: ImageFormat::Jpeg },
        SignatureEntry { first: 0x89, second: 0x50, format: ImageFormat::Png },
        SignatureEntry { first: 0x47, second: 0x49, format: ImageFormat::Gif },
        SignatureEntry { first: 0x49, second: 0x49, format: ImageFormat::Tiff },
        SignatureEntry { first: 0x4d, second: 0x4d, format: ImageFormat::Tiff },
        SignatureEntry { first: 0x42, second: 0x4d, format: ImageFormat::Bmp },
    ]
}

/// The entry of the signature table at `index`, if the table has one there.
pub fn signature_entry(index: usize) -> (entry: Option<SignatureEntry>)
    ensures
        entry == if index < SIGNATURE_COUNT {
            Some(signature_table()[index as int])
        } else {
            None
        },
{
    if index == 0 {
        Some(SignatureEntry { first: 0xff, second: 0xd8, format: ImageFormat::Jpeg })
    } else if index == 1 {
        Some(SignatureEntry { first: 0x89, second: 0x50, format: ImageFormat::Png })
    } else if index == 2 {
        Some(SignatureEntry { first: 0x47, second: 0x49, format: ImageFormat::Gif })
    } else if index == 3 {
        Some(SignatureEntry { first: 0x49, second: 0x49, format: ImageFormat::Tiff })
    } else if index == 4 {
        Some(SignatureEntry { first: 0x4d, second: 0x4d, format: ImageFormat::Tiff })
    } else if index == 5 {
        Some(SignatureEntry { first: 0x42, second: 0x4d, format: ImageFormat::Bmp })
    } else {
        None
    }
}

/// The first entry of the table, at `from` or later, whose difference is
/// `difference`.
pub open spec fn lookup_from(difference: u8, from: int) -> Option<SignatureEntry>
    decreases signature_table().len() - from,
{
    if from < 0 || from >= signature_table().len() {
        None
    } else if signature_table()[from].difference() == difference {
        Some(signature_table()[from])
    } else {
        lookup_from(difference, from + 1)
    }
}

/// The first entry of the table whose difference is `difference`.
pub open spec fn lookup(difference: u8) -> Option<SignatureEntry> {
    lookup_from(difference, 0)
}

/// What the detector finds in the two leading bytes of a container: the key
/// that unmasks the first byte to the matched entry's first byte, and the
/// matched entry's format. `None` where no entry has the bytes' difference.
pub open spec fn detect(b1: u8, b2: u8) -> Option<(u8, ImageFormat)> {
    match lookup(b1 ^ b2) {
        Some(entry) => Some((b1 ^ entry.first, entry.format)),
        None => None,
    }
}

/// Why the detector found no key.
#[derive(Clone, Copy, Debug, PartialEq, Eq, Structural)]
pub enum DetectionError {
    /// The difference of the two leading bytes is that of no known format.
    UnsupportedFormat,
}

/// Whether the entry at `index` is the first of the table whose difference
/// is `difference`.
pub open spec fn is_first_match(difference: u8, index: int) -> bool {
    &&& 0 <= index < signature_table().len()
    &&& signature_table()[index].difference() == difference
    &&& forall|j: int|
        0 <= j < index ==> (#[trigger] signature_table()[j]).difference() != difference
}

proof fn lemma_lookup_from(difference: u8, from: int)
    requires
        0 <= from <= signature_table().len(),
        forall|j: int|
            0 <= j < from ==> (#[trigger] signature_table()[j]).difference() != difference,
    ensures
        match lookup_from(difference, from) {
            Some(entry) => exists|i: int|
                #[trigger] is_first_match(difference, i) && signature_table()[i] == entry,
            None => forall|i: int|
                0 <= i < signature_table().len() ==> (#[trigger] signature_table()[i]).difference()
                    != difference,
        },
    decreases signature_table().len() - from,
{
    if from < signature_table().len() {
        if signature_table()[from].difference() == difference {
            assert(is_first_match(difference, from));
        } else {
            lemma_lookup_from(difference, from + 1);
        }
    }
}

/// The lookup finds the first entry with the given difference, and finds
/// none exactly when no entry of the table has that difference.
pub proof fn lemma_lookup_finds_first_match(difference: u8)
    ensures
        match lookup(difference) {
            Some(entry) => exists|i: int|
                #[trigger] is_first_match(difference, i) && signature_table()[i] == entry,
            None => forall|i: int|
                0 <= i < signature_table().len() ==> (#[trigger] signature_table()[i]).difference()
                    != difference,
        },
{
    lemma_lookup_from(difference, 0);
}

/// Recovers the key and the extension from the first two bytes of a
/// container.
///
/// Succeeds exactly when the table has an entry with the bytes' difference;
/// the first such entry decides the key and the extension.
pub fn find_xor_key(b1: u8, b2: u8) -> (r: Result<(u8, &'static str), DetectionError>)
    ensures
        r is Err <==> forall|i: int|
            0 <= i < signature_table().len() ==> (#[trigger] signature_table()[i]).difference()
                != b1 ^ b2,
        match r {
            Ok((key, ext)) => detect(b1, b2) matches Some((k, format)) && key == k && ext@
                == format.extension_text(),
            Err(e) => e == DetectionError::UnsupportedFormat && detect(b1, b2) is None,
        },
{
    let difference: u8 = b1 ^ b2;
    let mut index: usize = 0;
    loop
        invariant
            index <= SIGNATURE_COUNT,
            difference == b1 ^ b2,
            lookup(difference) == lookup_from(difference, index as int),
        decreases SIGNATURE_COUNT - index,
    {
        match signature_entry(index) {
            Some(entry) => {
                if entry.first ^ entry.second == difference {
                    return Ok((b1 ^ entry.first, entry.format.extension()));
                }
                index += 1;
            },
            None => {
                proof {
                    lemma_lookup_finds_first_match(difference);
                }
                return Err(DetectionError::UnsupportedFormat);
            },
        }
    }
}

/// The differences of the six entries, in table order.
pub proof fn lemma_table_differences()
    ensures
        signature_table().len() == SIGNATURE_COUNT,
        signature_table()[0].difference() == 0x27,
        signature_table()[1].difference() == 0xd9,
        signature_table()[2].difference() == 0x0e,
        signature_table()[3].difference() == 0x00,
        signature_table()[4].difference() == 0x00,
        signature_table()[5].difference() == 0x0f,
{
    assert(0xffu8 ^ 0xd8u8 == 0x27u8) by (bit_vector);
    assert(0x89u8 ^ 0x50u8 == 0xd9u8) by (bit_vector);
    assert(0x47u8 ^ 0x49u8 == 0x0eu8) by (bit_vector);
    assert(0x49u8 ^ 0x49u8 == 0x00u8) by (bit_vector);
    assert(0x4du8 ^ 0x4du8 == 0x00u8) by (bit_vector);
    assert(0x42u8 ^ 0x4du8 == 0x0fu8) by (bit_vector);
}

/// Two entries with one difference announce one format, so the extension
/// that the detector reports does not depend on the order of the table.
pub proof fn lemma_equal_difference_equal_format(i: int, j: int)
    requires
        0 <= i < signature_table().len(),
        0 <= j < signature_table().len(),
        signature_table()[i].difference() == signature_table()[j].difference(),
    ensures
        signature_table()[i].format == signature_table()[j].format,
{
    lemma_table_differences();
}

/// A difference that no entry of the table has is detected as no format.
pub proof fn lemma_unknown_difference_is_unsupported(b1: u8, b2: u8)
    requires
        forall|i: int|
            0 <= i < signature_table().len() ==> (#[trigger] signature_table()[i]).difference()
                != b1 ^ b2,
    ensures
        detect(b1, b2) is None,
{
    lemma_lookup_finds_first_match(b1 ^ b2);
}

/// Unmasking the two leading bytes with the detected key gives the two
/// signature bytes of an entry that has the detected format.
pub proof fn lemma_detected_key_unmasks_signature(b1: u8, b2: u8)
    ensures
        detect(b1, b2) matches Some((key, format)) ==> exists|i: int|
            #[trigger] is_first_match(b1 ^ b2, i) && signature_table()[i].format == format && b1
                ^ key == signature_table()[i].first && b2 ^ key == signature_table()[i].second,
{
    lemma_lookup_finds_first_match(b1 ^ b2);
    if let Some(entry) = lookup(b1 ^ b2) {
        let i: int = choose|i: int|
            #[trigger] is_first_match(b1 ^ b2, i) && signature_table()[i] == entry;
        let first: u8 = entry.first;
        let second: u8 = entry.second;
        assert(b1 ^ (b1 ^ first) == first) by (bit_vector);
        assert(b2 ^ (b1 ^ first) == second) by (bit_vector)
            requires
                b1 ^ b2 == first ^ second,
        ;
    }
}

/// Each entry of the table, masked with any key, is detected with the
/// entry's format. The key is recovered exactly where no earlier entry has
/// the same difference; the one entry that has such a forerunner is the
/// second TIFF signature.
pub proof fn lemma_masked_signature_is_detected(index: int, key: u8)
    requires
        0 <= index < signature_table().len(),
    ensures
        ({
            let entry = signature_table()[index];
            &&& detect(entry.first ^ key, entry.second ^ key) matches Some((found, format))
            &&& format == entry.format
            &&& is_first_match(entry.difference(), index) ==> found == key
            &&& index != 4 ==> found == key
        }),
{
    let entry = signature_table()[index];
    let first: u8 = entry.first;
    let second: u8 = entry.second;
    assert((first ^ key) ^ (second ^ key) == first ^ second) by (bit_vector);
    assert((first ^ key) ^ first == key) by (bit_vector);
    lemma_lookup_finds_first_match(entry.difference());
    lemma_table_differences();
    let matched = lookup(entry.difference())->Some_0;
    let i: int = choose|i: int|
        #[trigger] is_first_match(entry.difference(), i) && signature_table()[i] == matched;
    lemma_equal_difference_equal_format(i, index);
}

} // verus!
