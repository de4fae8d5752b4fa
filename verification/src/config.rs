//! The byte constants that a patch run works with.

use vstd::prelude::*;

verus! {

/// What tells the three states of a database apart, and what is put into it.
///
/// The patch marker is found in a database that already holds the patch, the
/// version marker in one of a revision that cannot be patched, and the
/// insertion point is where the `old_size` bytes start that `payload` takes
/// the place of.
pub struct PatchConfig {
    pub patch_marker: Vec<u8>,
    pub version_marker: Vec<u8>,
    pub insertion_point: Vec<u8>,
    pub old_size: usize,
    pub payload: Vec<u8>,
}

/// A `PatchConfig` as plain sequences.
pub ghost struct ConfigView {
    pub patch_marker: Seq<u8>,
    pub version_marker: Seq<u8>,
    pub insertion_point: Seq<u8>,
    pub old_size: nat,
    pub payload: Seq<u8>,
}

impl View for PatchConfig {
    type V = ConfigView;

    open spec fn view(&self) -> ConfigView {
        ConfigView {
            patch_marker: self.patch_marker@,
            version_marker: self.version_marker@,
            insertion_point: self.insertion_point@,
            old_size: self.old_size as nat,
            payload: self.payload@,
        }
    }
}

/// Number of bytes that the patch takes out of a Darktide database.
pub const DARKTIDE_OLD_SIZE: usize = 84;

/// `patch_999`, the name of the bundle patch that the mod loader adds.
pub open spec fn darktide_patch_marker() -> Seq<u8> {
    seq![0x70, 0x61, 0x74, 0x63, 0x68, 0x5f, 0x39, 0x39, 0x39]
}

/// `9ba626afa44a3aa3.patch_001`, a patch of the boot bundle that came with a
/// later revision of the game.
pub open spec fn darktide_version_marker() -> Seq<u8> {
    seq![
        0x39, 0x62, 0x61, 0x36, 0x32, 0x36, 0x61, 0x66, 0x61, 0x34, 0x34, 0x61, 0x33, 0x61, 0x61,
        0x33, 0x2e, 0x70, 0x61, 0x74, 0x63, 0x68, 0x5f, 0x30, 0x30, 0x31,
    ]
}

/// The hash of the boot bundle as the database stores it: `0xA33A4AA4AF26A69B`,
/// highest byte first.
pub open spec fn darktide_insertion_point() -> Seq<u8> {
    seq![0xA3u8, 0x3Au8, 0x4Au8, 0xA4u8, 0xAFu8, 0x26u8, 0xA6u8, 0x9Bu8]
}

impl PatchConfig {
    /// The configuration for Darktide's bundle database, with the bytes to
    /// insert handed in.
    pub fn darktide(payload: Vec<u8>) -> (config: PatchConfig)
        ensures
            config@ == (ConfigView {
                patch_marker: darktide_patch_marker(),
                version_marker: darktide_version_marker(),
                insertion_point: darktide_insertion_point(),
                old_size: DARKTIDE_OLD_SIZE as nat,
                payload: payload@,
            }),
    {
        let patch_marker: Vec<u8> = vec![0x70, 0x61, 0x74, 0x63, 0x68, 0x5f, 0x39, 0x39, 0x39];
        let version_marker: Vec<u8> = vec![
            0x39, 0x62, 0x61, 0x36, 0x32, 0x36, 0x61, 0x66, 0x61, 0x34, 0x34, 0x61, 0x33, 0x61, 0x61,
            0x33, 0x2e, 0x70, 0x61, 0x74, 0x63, 0x68, 0x5f, 0x30, 0x30, 0x31,
        ];
        let insertion_point: Vec<u8> = vec![0xA3u8, 0x3Au8, 0x4Au8, 0xA4u8, 0xAFu8, 0x26u8, 0xA6u8, 0x9Bu8];
        assert(patch_marker@ =~= darktide_patch_marker());
        assert(version_marker@ =~= darktide_version_marker());
        assert(insertion_point@ =~= darktide_insertion_point());
        PatchConfig {
            patch_marker,
            version_marker,
            insertion_point,
            old_size: DARKTIDE_OLD_SIZE,
            payload,
        }
    }
}

} // verus!
