use vstd::prelude::*;

verus! {

/// One record of a TAR stream, as raw values: the path bytes as the archive
/// stores them (not assumed to be valid text), the header's type flag byte,
/// its permission bits (absent when the header's mode field does not parse),
/// whether the header carries the POSIX ustar magic, the raw link-target
/// bytes for link entries, and the content bytes.
pub struct TarEntry {
    pub path: Vec<u8>,
    pub type_flag: u8,
    pub mode: Option<u32>,
    pub ustar: bool,
    pub link: Option<Vec<u8>>,
    pub content: Vec<u8>,
}

/// The mathematical shadow of one TAR record.
pub struct EntryModel {
    pub path: Seq<u8>,
    pub type_flag: u8,
    pub mode: Option<u32>,
    pub ustar: bool,
    pub link: Option<Seq<u8>>,
    pub content: Seq<u8>,
}

impl View for TarEntry {
    type V = EntryModel;

    open spec fn view(&self) -> EntryModel {
        EntryModel {
            path: self.path@,
            type_flag: self.type_flag,
            mode: self.mode,
            ustar: self.ustar,
            link: match self.link {
                Some(l) => Some(l@),
                None => None,
            },
            content: self.content@,
        }
    }
}

/// What parsing a byte stream as a TAR archive yields: the records in stream
/// order, or nothing if the stream is not a well-formed archive; parsing is a
/// function of the input bytes alone.
pub uninterp spec fn tar_entries_of(data: Seq<u8>) -> Option<Seq<EntryModel>>;

/// Relies on the tar crate over an in-memory reader: Archive::new and
/// Archive::entries to walk the records in stream order, Entry::path_bytes,
/// Entry::link_name_bytes, Header::entry_type, Header::mode and
/// Header::as_ustar for each record's raw fields, and the Read impl of Entry
/// (via std::io::Read::read_to_end) for its content; any malformed header or
/// short read fails the whole parse, while an unparseable mode field only
/// leaves that record without permission bits.
#[verifier::external_body]
pub(crate) fn parse_tar(data: &[u8]) -> (r: Option<Vec<TarEntry>>)
    ensures
        r is Some <==> tar_entries_of(data@) is Some,
        r matches Some(v) ==> tar_entries_of(data@) == Some(
            v@.map_values(|e: TarEntry| e@),
        ),
{
    let mut archive = tar::Archive::new(data);
    let mut out = Vec::new();
    for entry in archive.entries().ok()? {
        let mut entry = entry.ok()?;
        let path = entry.path_bytes().to_vec();
        let link = entry.link_name_bytes().map(|l| l.to_vec());
        let type_flag = entry.header().entry_type().as_byte();
        let mode = entry.header().mode().ok();
        let ustar = entry.header().as_ustar().is_some();
        let mut content = Vec::new();
        std::io::Read::read_to_end(&mut entry, &mut content).ok()?;
        out.push(TarEntry { path, type_flag, mode, ustar, link, content });
    }
    Some(out)
}

} // verus!
