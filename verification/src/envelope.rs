use vstd::prelude::*;

verus! {

/// The outer compression format wrapping a TAR byte stream.
#[derive(Clone, Copy, PartialEq, Eq, Structural, Debug)]
pub enum Envelope {
    Plain,
    Gzip,
    Xz,
    Bzip2,
}

/// The localization key of the message shown while an archive of this
/// envelope is being extracted.
pub open spec fn spec_message_key(env: Envelope) -> Seq<char> {
    match env {
        Envelope::Plain => "progress.extracting_tar"@,
        Envelope::Gzip => "progress.extracting_tar_gz"@,
        Envelope::Xz => "progress.extracting_tar_xz"@,
        Envelope::Bzip2 => "progress.extracting_tar_bz2"@,
    }
}

impl Envelope {
    /// The localization key for this envelope's progress message.
    pub fn message_key(&self) -> (r: &'static str)
        ensures
            r@ == spec_message_key(*self),
    {
        match self {
            Envelope::Plain => "progress.extracting_tar",
            Envelope::Gzip => "progress.extracting_tar_gz",
            Envelope::Xz => "progress.extracting_tar_xz",
            Envelope::Bzip2 => "progress.extracting_tar_bz2",
        }
    }
}

} // verus!
