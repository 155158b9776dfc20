//! The filesystem statistics of one tick and the record sent for them.
use vstd::prelude::*;

verus! {

/// The raw counters that the operating system reports for a filesystem.
#[derive(Clone, Copy, Debug, PartialEq, Eq, Structural)]
pub struct FsCounters {
    pub bsize: u64,
    pub frsize: u64,
    pub blocks: u64,
    pub bfree: u64,
    pub bavail: u64,
    pub files: u64,
    pub ffree: u64,
    pub favail: u64,
    pub fsid: u64,
    /// The mount-option bit flags.
    pub flags: u64,
    pub namemax: u64,
}

/// The text that nix's Debug rendering of mount flags gives for a bit set.
pub uninterp spec fn mount_flags_text(bits: u64) -> Seq<char>;

/// Relies on the Debug rendering of nix::sys::statvfs::FsFlags, built with
/// FsFlags::from_bits_truncate as nix's own Statvfs::flags builds it: the
/// text depends on the bits alone.
#[verifier::external_body]
fn render_mount_flags(bits: u64) -> (r: String)
    ensures
        r@ == mount_flags_text(bits),
{
    format!("{:?}", nix::sys::statvfs::FsFlags::from_bits_truncate(bits))
}

/// The statistics of one tick, as they are sent.
#[derive(Debug)]
pub struct StatvfsDef {
    pub bsize: u64,
    pub frsize: u64,
    pub blocks: u64,
    pub bfree: u64,
    pub bavail: u64,
    pub files: u64,
    pub ffree: u64,
    pub favail: u64,
    pub fsid: u64,
    /// The mount flags, rendered as text.
    pub flagstr: String,
    pub namemax: u64,
}

impl StatvfsDef {
    /// Whether the record holds exactly what `stat` gives.
    pub open spec fn matches(self, stat: FsCounters) -> bool {
        &&& self.bsize == stat.bsize
        &&& self.frsize == stat.frsize
        &&& self.blocks == stat.blocks
        &&& self.bfree == stat.bfree
        &&& self.bavail == stat.bavail
        &&& self.files == stat.files
        &&& self.ffree == stat.ffree
        &&& self.favail == stat.favail
        &&& self.fsid == stat.fsid
        &&& self.flagstr@ == mount_flags_text(stat.flags)
        &&& self.namemax == stat.namemax
    }

    /// Maps the counters into a record.
    pub fn from_statvfs(stat: &FsCounters) -> (r: StatvfsDef)
        ensures
            r.matches(*stat),
    {
        StatvfsDef {
            bsize: stat.bsize,
            frsize: stat.frsize,
            blocks: stat.blocks,
            bfree: stat.bfree,
            bavail: stat.bavail,
            files: stat.files,
            ffree: stat.ffree,
            favail: stat.favail,
            fsid: stat.fsid,
            flagstr: render_mount_flags(stat.flags),
            namemax: stat.namemax,
        }
    }

    /// A copy of the record.
    pub fn duplicate(&self) -> (r: StatvfsDef)
        ensures
            r == *self,
    {
        StatvfsDef {
            bsize: self.bsize,
            frsize: self.frsize,
            blocks: self.blocks,
            bfree: self.bfree,
            bavail: self.bavail,
            files: self.files,
            ffree: self.ffree,
            favail: self.favail,
            fsid: self.fsid,
            flagstr: self.flagstr.clone(),
            namemax: self.namemax,
        }
    }
}

/// The envelope around a record: a single `statvfs` field.
#[derive(Debug)]
pub struct StatvfsWrap {
    pub statvfs: StatvfsDef,
}

impl StatvfsWrap {
    pub fn new(statvfs: StatvfsDef) -> (r: StatvfsWrap)
        ensures
            r.statvfs == statvfs,
    {
        StatvfsWrap { statvfs }
    }

    /// A copy of the envelope.
    pub fn duplicate(&self) -> (r: StatvfsWrap)
        ensures
            r == *self,
    {
        StatvfsWrap { statvfs: self.statvfs.duplicate() }
    }
}

} // verus!
