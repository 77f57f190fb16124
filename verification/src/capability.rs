//! Optional driver features, resolved once at startup.
//!
//! Which entry points a driver offers depends on the host. The binding layer
//! probes the host once, hands what it found to [`CapabilityTable::probe`],
//! and keeps the table for the life of the process. Every command that
//! belongs to an optional feature consults the table before anything is
//! sent to the driver.

use vstd::prelude::*;

verus! {

/// An optional feature of the driver.
#[derive(Clone, Copy, Debug, PartialEq, Eq, Structural)]
pub enum Capability {
    /// Vertex array objects: binding and generating them.
    VertexArrayObjects,
    /// Instanced drawing of arrays and of indexed elements.
    InstancedDrawing,
    /// Per-instance advance rate of a vertex attribute.
    InstancedArrays,
    /// The vendor extension that places textures in a client memory range.
    TextureRange,
}

/// What the probe found out about the host.
#[derive(Clone, Copy, Debug, PartialEq, Eq, Structural)]
pub struct Platform {
    /// The host runs macOS.
    pub macos: bool,
    /// The host's system release is 10.6.
    pub mac_10_6: bool,
    /// The host's system release is 10.7.
    pub mac_10_7: bool,
}

/// The kernel name by which macOS reports itself: `Darwin`.
pub open spec fn darwin() -> Seq<u8> {
    seq![0x44u8, 0x61u8, 0x72u8, 0x77u8, 0x69u8, 0x6eu8]
}

/// Whether a kernel release starts with the major number `tens``ones`
/// and a dot, as in `10.8.0`.
pub open spec fn release_major(release: Seq<u8>, tens: u8, ones: u8) -> bool {
    seq![tens, ones, 0x2eu8].is_prefix_of(release)
}

/// Whether `release` starts with the three given bytes.
fn starts_with(release: &[u8], first: u8, second: u8, third: u8) -> (found: bool)
    ensures
        found == seq![first, second, third].is_prefix_of(release@),
{
    release.len() >= 3 && release[0] == first && release[1] == second && release[2] == third
}

impl Platform {
    /// What a system's own report says of the host. A kernel named
    /// `Darwin` is macOS; its release 10 is the kernel of system release
    /// 10.6, its release 11 that of 10.7. No other kernel has a release
    /// that counts.
    pub open spec fn of_system(sysname: Seq<u8>, release: Seq<u8>) -> Platform {
        let macos = sysname == darwin();
        Platform {
            macos,
            mac_10_6: macos && release_major(release, 0x31, 0x30),
            mac_10_7: macos && release_major(release, 0x31, 0x31),
        }
    }

    /// Reads the host off the kernel name and the kernel release that the
    /// running system reports.
    pub fn from_system(sysname: &[u8], release: &[u8]) -> (platform: Platform)
        ensures
            platform == Platform::of_system(sysname@, release@),
    {
        let macos: bool = sysname.len() == 6 && sysname[0] == 0x44 && sysname[1] == 0x61
            && sysname[2] == 0x72 && sysname[3] == 0x77 && sysname[4] == 0x69 && sysname[5]
            == 0x6e;
        proof {
            if macos {
                assert(sysname@ =~= darwin());
            }
        }
        let mac_10_6: bool = macos && starts_with(release, 0x31, 0x30, 0x2e);
        let mac_10_7: bool = macos && starts_with(release, 0x31, 0x31, 0x2e);
        Platform { macos, mac_10_6, mac_10_7 }
    }
}

/// Whether a host offers a feature.
///
/// Vertex array objects and instanced drawing are missing only from macOS
/// 10.6; the per-instance divisor is missing from macOS 10.6 and 10.7; the
/// texture-range extension exists on macOS alone.
pub open spec fn available(platform: Platform, name: Capability) -> bool {
    match name {
        Capability::VertexArrayObjects => !platform.macos || !platform.mac_10_6,
        Capability::InstancedDrawing => !platform.macos || !platform.mac_10_6,
        Capability::InstancedArrays => !platform.macos || (!platform.mac_10_6
            && !platform.mac_10_7),
        Capability::TextureRange => platform.macos,
    }
}

/// Availability of every optional feature. Fixed once it is made: there is
/// no way to change an entry.
#[derive(Clone, Copy, Debug, PartialEq, Eq)]
pub struct CapabilityTable {
    vertex_array_objects: bool,
    instanced_drawing: bool,
    instanced_arrays: bool,
    texture_range: bool,
}

impl CapabilityTable {
    /// The per-instance divisor is a part of instancing: no table has it
    /// without instanced drawing.
    #[verifier::type_invariant]
    pub open spec fn consistent(&self) -> bool {
        self.spec_has(Capability::InstancedArrays) ==> self.spec_has(
            Capability::InstancedDrawing,
        )
    }

    /// The table's entry for `name`.
    pub closed spec fn spec_has(&self, name: Capability) -> bool {
        match name {
            Capability::VertexArrayObjects => self.vertex_array_objects,
            Capability::InstancedDrawing => self.instanced_drawing,
            Capability::InstancedArrays => self.instanced_arrays,
            Capability::TextureRange => self.texture_range,
        }
    }

    /// Fills the table from what the probe found.
    pub fn probe(platform: Platform) -> (table: CapabilityTable)
        ensures
            forall|name: Capability| table.spec_has(name) == available(platform, name),
    {
        let modern: bool = !platform.macos || !platform.mac_10_6;
        CapabilityTable {
            vertex_array_objects: modern,
            instanced_drawing: modern,
            instanced_arrays: !platform.macos || (!platform.mac_10_6 && !platform.mac_10_7),
            texture_range: platform.macos,
        }
    }

    /// Looks a feature up. A missing feature is an answer, not an error.
    #[verifier::when_used_as_spec(spec_has)]
    pub fn has(&self, name: Capability) -> (present: bool)
        ensures
            present == self.spec_has(name),
            self.consistent(),
    {
        proof {
            use_type_invariant(self);
        }
        match name {
            Capability::VertexArrayObjects => self.vertex_array_objects,
            Capability::InstancedDrawing => self.instanced_drawing,
            Capability::InstancedArrays => self.instanced_arrays,
            Capability::TextureRange => self.texture_range,
        }
    }
}

} // verus!
