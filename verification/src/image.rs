//! Diagnostic accounting of the rootserver image: the byte extents of the
//! embedded capDL specification, the optional embedded component-image
//! archive, and the remainder of the executable, computed from linker-provided
//! start/end address markers. Logged only, never branched on; the archive
//! extent may be zero when component images are supplied out-of-band.

use vstd::prelude::*;

verus! {

/// The three diagnostic byte extents of the rootserver image.
#[derive(Clone, Copy, Debug, PartialEq, Eq, Structural)]
pub struct ImageLayout {
    /// Bytes occupied by the embedded capDL specification.
    pub model_bytes: usize,
    /// Bytes occupied by the embedded component-image archive; zero when the
    /// images are supplied out-of-band.
    pub archive_bytes: usize,
    /// Bytes of the executable not accounted to the specification or the
    /// archive.
    pub rootserver_bytes: usize,
}

/// Byte extent between two address markers.
pub fn calc_bytes(begin: usize, end: usize) -> (r: usize)
    requires
        begin <= end,
    ensures
        r == end - begin,
{
    end - begin
}

/// Split the executable's extent into the specification's footprint, the
/// archive's footprint and the remainder. The archive markers may coincide
/// (a zero-length archive); the specification and archive together may not
/// exceed the executable they are embedded in.
pub fn image_layout(
    executable_start: usize,
    executable_end: usize,
    archive_start: usize,
    archive_end: usize,
    model_bytes: usize,
) -> (r: ImageLayout)
    requires
        executable_start <= executable_end,
        archive_start <= archive_end,
        model_bytes + (archive_end - archive_start) <= executable_end - executable_start,
    ensures
        r.model_bytes == model_bytes,
        r.archive_bytes == archive_end - archive_start,
        r.rootserver_bytes == (executable_end - executable_start) - model_bytes - (archive_end
            - archive_start),
{
    let executable_bytes = calc_bytes(executable_start, executable_end);
    let archive_bytes = calc_bytes(archive_start, archive_end);
    ImageLayout {
        model_bytes,
        archive_bytes,
        rootserver_bytes: executable_bytes - model_bytes - archive_bytes,
    }
}

} // verus!
