//! Version information, and what it takes to be a message with a payload.

use crate::wire::{bytes_field, put_bytes, put_uint32, uint32_field};
use vstd::prelude::*;

verus! {

/// A record that can be written as the payload of a message.
pub trait Message {
    /// The payload bytes of this record.
    spec fn buffer(&self) -> Seq<u8>;

    /// Writes the record as payload bytes.
    fn to_buffer(&self) -> (r: Vec<u8>)
        ensures
            r@ == self.buffer(),
    ;
}

/// A parsed semantic version.
#[derive(Clone, Copy, Debug, PartialEq, Eq, Structural)]
pub struct SemVer {
    /// Major version.
    pub major: u16,
    /// Minor version.
    pub minor: u8,
    /// Patchlevel.
    pub patch: u8,
}

impl SemVer {
    pub fn new(major: u16, minor: u8, patch: u8) -> (r: SemVer)
        ensures
            r == (SemVer { major, minor, patch }),
    {
        SemVer { major, minor, patch }
    }
}

/// A semantic version packed into 32 bits: the major version in the upper
/// half, then the minor version, then the patchlevel.
pub open spec fn packed_version(version: SemVer) -> u32 {
    (version.major * 0x1_0000 + version.minor * 0x100 + version.patch) as u32
}

/// The text of a string as the bytes that go on the wire.
pub open spec fn text_bytes(text: Seq<char>) -> Seq<u8> {
    vstd::utf8::encode_utf8(text)
}

/// The version information that client and server tell each other.
#[derive(Clone, Debug, PartialEq, Eq)]
pub struct Version {
    /// Packed version of the protocol that the sender supports.
    pub version: u32,
    /// Exact release name of the sender's software.
    pub release: String,
    /// Name of the operating system the sender runs on.
    pub os: String,
    /// Specific version of that operating system.
    pub os_version: String,
}

impl Version {
    pub fn new(version: SemVer, release: &str, os: &str, os_version: &str) -> (r: Version)
        ensures
            r.version == packed_version(version),
            r.release@ == release@,
            r.os@ == os@,
            r.os_version@ == os_version@,
    {
        Version {
            version: Version::encode_version(version),
            release: release.to_owned(),
            os: os.to_owned(),
            os_version: os_version.to_owned(),
        }
    }

    /// Packs a semantic version into 32 bits.
    pub fn encode_version(version: SemVer) -> (r: u32)
        ensures
            r == packed_version(version),
    {
        let major: u32 = version.major as u32;
        let minor: u32 = version.minor as u32;
        let patch: u32 = version.patch as u32;
        assert(((major & 0xFFFF) << 16) | ((minor & 0xFF) << 8) | (patch & 0xFF) == major * 0x1_0000
            + minor * 0x100 + patch) by (bit_vector)
            requires
                major <= 0xFFFF,
                minor <= 0xFF,
                patch <= 0xFF,
        ;
        ((major & 0xFFFF) << 16) | ((minor & 0xFF) << 8) | (patch & 0xFF)
    }
}

/// The payload of version information: field 1 holds the packed version,
/// fields 2 to 4 the three texts.
pub open spec fn version_payload(
    version: u32,
    release: Seq<char>,
    os: Seq<char>,
    os_version: Seq<char>,
) -> Seq<u8> {
    uint32_field(1, version) + bytes_field(2, text_bytes(release)) + bytes_field(
        3,
        text_bytes(os),
    ) + bytes_field(4, text_bytes(os_version))
}

impl Message for Version {
    open spec fn buffer(&self) -> Seq<u8> {
        version_payload(self.version, self.release@, self.os@, self.os_version@)
    }

    fn to_buffer(&self) -> (r: Vec<u8>) {
        let mut out: Vec<u8> = Vec::new();
        put_uint32(&mut out, 1, self.version);
        put_bytes(&mut out, 2, self.release.as_str().as_bytes());
        put_bytes(&mut out, 3, self.os.as_str().as_bytes());
        put_bytes(&mut out, 4, self.os_version.as_str().as_bytes());
        assert(out@ =~= self.buffer());
        out
    }
}

/// Version information that is filled in step by step.
#[derive(Clone, Debug, PartialEq, Eq)]
pub struct ProtoVersion {
    /// Packed version of the protocol that the sender supports.
    pub version: u32,
    /// Exact release name of the sender's software.
    pub release: String,
    /// Name of the operating system the sender runs on.
    pub os: String,
    /// Specific version of that operating system.
    pub os_version: String,
}

impl ProtoVersion {
    /// Packs a semantic version into 32 bits.
    pub fn encode_version(version: SemVer) -> (r: u32)
        ensures
            r == packed_version(version),
    {
        Version::encode_version(version)
    }

    /// Sets the packed version from a semantic version, and nothing else.
    pub fn set_semver(&mut self, version: SemVer)
        ensures
            final(self).version == packed_version(version),
            final(self).release == old(self).release,
            final(self).os == old(self).os,
            final(self).os_version == old(self).os_version,
    {
        let encoded: u32 = ProtoVersion::encode_version(version);
        self.version = encoded;
    }
}

} // verus!
