use crate::archive::{parse_tar, tar_entries_of, EntryModel, TarEntry};
use crate::codec::{bunzip, bunzip_of, gunzip, gunzip_of, unxz, unxz_of};
use crate::decode::{decode_filename, decoded_chars};
use crate::envelope::Envelope;
use crate::paths::{file_name_chars, file_name_of, join_under, joined};
use vstd::prelude::*;
use vstd::slice::slice_to_vec;

verus! {

/// Why an extraction failed: the outer compression envelope did not decode,
/// or the decompressed stream was not a well-formed TAR archive.
#[derive(Clone, Copy, PartialEq, Eq, Structural, Debug)]
pub enum ExtractError {
    Codec,
    Archive,
}

/// What is to be materialized for one record, following the archive
/// format's unpack rules: a directory, a hard link, a symbolic link,
/// nothing (extension and long-name records carry only metadata), or a
/// regular file — the default for every unrecognized type flag.
#[derive(Clone, Copy, PartialEq, Eq, Structural, Debug)]
pub enum PlannedAction {
    Dir,
    HardLink,
    Symlink,
    Skip,
    File,
}

/// The TAR type-flag bytes the dispatch distinguishes, by ASCII value:
/// '5' directory, '1' hard link, '2' symbolic link, 'g' and 'x' PAX global
/// and local extensions, 'L' and 'K' GNU long name and long link; and the
/// path separator '/'.
pub const FLAG_DIR: u8 = 53;

pub const FLAG_HARD_LINK: u8 = 49;

pub const FLAG_SYMLINK: u8 = 50;

pub const FLAG_PAX_GLOBAL: u8 = 103;

pub const FLAG_PAX_LOCAL: u8 = 120;

pub const FLAG_GNU_LONGNAME: u8 = 76;

pub const FLAG_GNU_LONGLINK: u8 = 75;

pub const SLASH_BYTE: u8 = 47;

/// The canonical regular-file type flag, ASCII '0'.
pub const FLAG_REGULAR: u8 = 48;

/// The action a record's header calls for: directory entries become
/// directories, as do old-style (pre-ustar) entries whose name ends in a
/// separator; hard-link and symbolic-link entries become links; PAX
/// extension and GNU long-name records materialize nothing; every other
/// type flag, recognized or not, is written as a regular file.
pub open spec fn action_of(type_flag: u8, raw_path: Seq<u8>, ustar: bool) -> PlannedAction {
    if type_flag == FLAG_DIR {
        PlannedAction::Dir
    } else if type_flag == FLAG_HARD_LINK {
        PlannedAction::HardLink
    } else if type_flag == FLAG_SYMLINK {
        PlannedAction::Symlink
    } else if type_flag == FLAG_PAX_GLOBAL || type_flag == FLAG_PAX_LOCAL || type_flag == FLAG_GNU_LONGNAME
        || type_flag == FLAG_GNU_LONGLINK {
        PlannedAction::Skip
    } else if !ustar && raw_path.len() > 0 && raw_path.last() == SLASH_BYTE {
        PlannedAction::Dir
    } else {
        PlannedAction::File
    }
}

fn action_for(type_flag: u8, raw_path: &[u8], ustar: bool) -> (r: PlannedAction)
    ensures
        r == action_of(type_flag, raw_path@, ustar),
{
    if type_flag == FLAG_DIR {
        PlannedAction::Dir
    } else if type_flag == FLAG_HARD_LINK {
        PlannedAction::HardLink
    } else if type_flag == FLAG_SYMLINK {
        PlannedAction::Symlink
    } else if type_flag == FLAG_PAX_GLOBAL || type_flag == FLAG_PAX_LOCAL || type_flag == FLAG_GNU_LONGNAME
        || type_flag == FLAG_GNU_LONGLINK {
        PlannedAction::Skip
    } else if !ustar && raw_path.len() > 0 && raw_path[raw_path.len() - 1] == SLASH_BYTE {
        PlannedAction::Dir
    } else {
        PlannedAction::File
    }
}

/// The permission bits a record's mode field declares, masked to the low
/// nine bits as unpacking applies them; absent when the field did not parse.
pub open spec fn masked_mode(mode: Option<u32>) -> Option<u32> {
    match mode {
        Some(m) => Some(m & 0o777),
        None => None,
    }
}

/// One planned filesystem action: where a record goes under the destination
/// directory, its decoded last component for the progress message, what is
/// to be materialized there, and with which permission bits.
#[derive(Debug)]
pub struct PlannedEntry {
    pub output_path: String,
    pub file_name: Option<String>,
    pub action: PlannedAction,
    pub mode: Option<u32>,
    pub type_flag: u8,
    pub link_target: Option<String>,
    pub content: Vec<u8>,
}

/// The mathematical shadow of one planned filesystem action.
pub struct PlanModel {
    pub output_path: Seq<char>,
    pub file_name: Option<Seq<char>>,
    pub action: PlannedAction,
    pub mode: Option<u32>,
    pub type_flag: u8,
    pub link_target: Option<Seq<char>>,
    pub content: Seq<u8>,
}

impl View for PlannedEntry {
    type V = PlanModel;

    open spec fn view(&self) -> PlanModel {
        PlanModel {
            output_path: self.output_path@,
            file_name: match self.file_name {
                Some(s) => Some(s@),
                None => None,
            },
            action: self.action,
            mode: self.mode,
            type_flag: self.type_flag,
            link_target: match self.link_target {
                Some(s) => Some(s@),
                None => None,
            },
            content: self.content@,
        }
    }
}

/// The archive bytes once the envelope is removed: the input itself for a
/// plain TAR, otherwise what the envelope's decompressor yields.
pub open spec fn unwrapped_stream(env: Envelope, data: Seq<u8>) -> Option<Seq<u8>> {
    match env {
        Envelope::Plain => Some(data),
        Envelope::Gzip => gunzip_of(data),
        Envelope::Xz => unxz_of(data),
        Envelope::Bzip2 => bunzip_of(data),
    }
}

/// The plan for one record: output path, decoded last component, the action
/// its header calls for, its masked permission bits, type flag, decoded link
/// target and content.
pub open spec fn planned_entry(dest: Seq<char>, e: EntryModel) -> PlanModel {
    PlanModel {
        output_path: joined(dest, decoded_chars(e.path)),
        file_name: file_name_chars(decoded_chars(e.path)),
        action: action_of(e.type_flag, e.path, e.ustar),
        mode: masked_mode(e.mode),
        type_flag: e.type_flag,
        link_target: match e.link {
            Some(l) => Some(decoded_chars(l)),
            None => None,
        },
        content: e.content,
    }
}

/// What extracting an archive of the given envelope to the destination
/// yields: one planned entry per record, in stream order, or the first
/// error. The whole operation fails as soon as the envelope or the archive
/// stream is malformed; there is no partial success.
pub open spec fn spec_extract(env: Envelope, data: Seq<u8>, dest: Seq<char>) -> Result<
    Seq<PlanModel>,
    ExtractError,
> {
    match unwrapped_stream(env, data) {
        None => Err(ExtractError::Codec),
        Some(stream) => match tar_entries_of(stream) {
            None => Err(ExtractError::Archive),
            Some(es) => Ok(es.map_values(|e: EntryModel| planned_entry(dest, e))),
        },
    }
}

fn plan_archive(stream: &[u8], dest: &str) -> (r: Result<Vec<PlannedEntry>, ExtractError>)
    ensures
        match r {
            Ok(plans) => tar_entries_of(stream@) matches Some(es) && plans@.map_values(
                |p: PlannedEntry| p@,
            ) == es.map_values(|e: EntryModel| planned_entry(dest@, e)),
            Err(e) => e == ExtractError::Archive && tar_entries_of(stream@) is None,
        },
{
    let entries = match parse_tar(stream) {
        Some(es) => es,
        None => {
            return Err(ExtractError::Archive);
        },
    };
    let ghost models = entries@.map_values(|e: TarEntry| e@);
    let mut plans: Vec<PlannedEntry> = Vec::new();
    let mut i: usize = 0;
    while i < entries.len()
        invariant
            i <= entries.len(),
            models == entries@.map_values(|e: TarEntry| e@),
            tar_entries_of(stream@) == Some(models),
            plans@.len() == i,
            forall|j: int|
                0 <= j < i ==> #[trigger] plans@[j]@ == planned_entry(dest@, models[j]),
        decreases entries@.len() - i,
    {
        let e = &entries[i];
        let decoded = decode_filename(e.path.as_slice());
        let output_path = join_under(dest, decoded.as_str());
        let file_name = file_name_of(decoded.as_str());
        let action = action_for(e.type_flag, e.path.as_slice(), e.ustar);
        let mode = match e.mode {
            Some(m) => Some(m & 0o777),
            None => None,
        };
        let link_target = match &e.link {
            Some(l) => Some(decode_filename(l.as_slice())),
            None => None,
        };
        let content = slice_to_vec(e.content.as_slice());
        let plan = PlannedEntry {
            output_path,
            file_name,
            action,
            mode,
            type_flag: e.type_flag,
            link_target,
            content,
        };
        proof {
            assert(models[i as int] == entries@[i as int]@);
            assert(plan@ == planned_entry(dest@, models[i as int]));
        }
        plans.push(plan);
        i += 1;
    }
    proof {
        assert(plans@.map_values(|p: PlannedEntry| p@) =~= models.map_values(
            |e: EntryModel| planned_entry(dest@, e),
        ));
    }
    Ok(plans)
}

/// Extract an archive of the given envelope: remove the envelope, read every
/// record of the TAR stream, and plan each record's place under the
/// destination directory, in stream order.
pub fn extract_archive(env: Envelope, data: &[u8], dest: &str) -> (r: Result<
    Vec<PlannedEntry>,
    ExtractError,
>)
    ensures
        match r {
            Ok(plans) => spec_extract(env, data@, dest@) == Ok::<_, ExtractError>(
                plans@.map_values(|p: PlannedEntry| p@),
            ),
            Err(e) => spec_extract(env, data@, dest@) == Err::<Seq<PlanModel>, _>(e),
        },
{
    match env {
        Envelope::Plain => plan_archive(data, dest),
        Envelope::Gzip => match gunzip(data) {
            Some(s) => plan_archive(s.as_slice(), dest),
            None => Err(ExtractError::Codec),
        },
        Envelope::Xz => match unxz(data) {
            Some(s) => plan_archive(s.as_slice(), dest),
            None => Err(ExtractError::Codec),
        },
        Envelope::Bzip2 => match bunzip(data) {
            Some(s) => plan_archive(s.as_slice(), dest),
            None => Err(ExtractError::Codec),
        },
    }
}

/// Extract a plain TAR archive held in memory to a plan of filesystem
/// entries under the destination directory.
pub fn extract_tar(data: &[u8], dest: &str) -> (r: Result<Vec<PlannedEntry>, ExtractError>)
    ensures
        match r {
            Ok(plans) => spec_extract(Envelope::Plain, data@, dest@) == Ok::<_, ExtractError>(
                plans@.map_values(|p: PlannedEntry| p@),
            ),
            Err(e) => spec_extract(Envelope::Plain, data@, dest@) == Err::<Seq<PlanModel>, _>(e),
        },
{
    extract_archive(Envelope::Plain, data, dest)
}

/// Extract a gzip-compressed TAR archive held in memory to a plan of
/// filesystem entries under the destination directory.
pub fn extract_tar_gz(data: &[u8], dest: &str) -> (r: Result<Vec<PlannedEntry>, ExtractError>)
    ensures
        match r {
            Ok(plans) => spec_extract(Envelope::Gzip, data@, dest@) == Ok::<_, ExtractError>(
                plans@.map_values(|p: PlannedEntry| p@),
            ),
            Err(e) => spec_extract(Envelope::Gzip, data@, dest@) == Err::<Seq<PlanModel>, _>(e),
        },
{
    extract_archive(Envelope::Gzip, data, dest)
}

/// Extract an xz-compressed TAR archive held in memory to a plan of
/// filesystem entries under the destination directory.
pub fn extract_tar_xz(data: &[u8], dest: &str) -> (r: Result<Vec<PlannedEntry>, ExtractError>)
    ensures
        match r {
            Ok(plans) => spec_extract(Envelope::Xz, data@, dest@) == Ok::<_, ExtractError>(
                plans@.map_values(|p: PlannedEntry| p@),
            ),
            Err(e) => spec_extract(Envelope::Xz, data@, dest@) == Err::<Seq<PlanModel>, _>(e),
        },
{
    extract_archive(Envelope::Xz, data, dest)
}

/// Extract a bzip2-compressed TAR archive held in memory to a plan of
/// filesystem entries under the destination directory.
pub fn extract_tar_bz2(data: &[u8], dest: &str) -> (r: Result<Vec<PlannedEntry>, ExtractError>)
    ensures
        match r {
            Ok(plans) => spec_extract(Envelope::Bzip2, data@, dest@) == Ok::<_, ExtractError>(
                plans@.map_values(|p: PlannedEntry| p@),
            ),
            Err(e) => spec_extract(Envelope::Bzip2, data@, dest@) == Err::<Seq<PlanModel>, _>(e),
        },
{
    extract_archive(Envelope::Bzip2, data, dest)
}

/// For every supported envelope, extracting a stream that unwraps to a
/// well-formed archive succeeds and is exact: one planned entry per record,
/// in stream order, each carrying the record's content and type flag
/// unchanged, its output path the destination joined with the record's
/// decoded path, and its display name that path's last component.
pub proof fn lemma_extraction_exact(
    env: Envelope,
    data: Seq<u8>,
    dest: Seq<char>,
    es: Seq<EntryModel>,
)
    requires
        unwrapped_stream(env, data) is Some,
        tar_entries_of(unwrapped_stream(env, data).unwrap()) == Some(es),
    ensures
        spec_extract(env, data, dest) == Ok::<_, ExtractError>(
            es.map_values(|e: EntryModel| planned_entry(dest, e)),
        ),
        spec_extract(env, data, dest).unwrap().len() == es.len(),
        forall|i: int|
            0 <= i < es.len() ==> #[trigger] spec_extract(env, data, dest).unwrap()[i]
                == planned_entry(dest, es[i]),
{
}

/// Path decoding is total: a record is planned whatever its raw path bytes,
/// valid UTF-8 or not. A nonempty raw path decodes to nonempty text, and the
/// planned output path is the destination, one separator, then the decoded
/// path — so the destination is a strict prefix of every output path.
pub proof fn lemma_path_decoding_total(dest: Seq<char>, e: EntryModel)
    requires
        e.path.len() > 0,
        dest.len() > 0,
        dest.last() != '/',
    ensures
        decoded_chars(e.path).len() > 0,
        planned_entry(dest, e).output_path == dest + seq!['/'] + decoded_chars(e.path),
        planned_entry(dest, e).output_path.len() > dest.len(),
        planned_entry(dest, e).output_path.take(dest.len() as int) == dest,
{
    if vstd::utf8::valid_utf8(e.path) {
        assert(decoded_chars(e.path).len() > 0);
    }
    assert(planned_entry(dest, e).output_path.take(dest.len() as int) =~= dest);
}

/// Permissions travel with the plan: a record whose mode field parsed is
/// planned with exactly its declared bits masked to the low nine, as the
/// unpack step applies them, and never more; a record whose mode field did
/// not parse is planned without permission bits, and none are applied.
pub proof fn lemma_permissions_planned(dest: Seq<char>, e: EntryModel)
    ensures
        e.mode matches Some(m) ==> planned_entry(dest, e).mode == Some(m & 0o777),
        planned_entry(dest, e).mode matches Some(pm) ==> pm <= 0o777,
        e.mode is None ==> planned_entry(dest, e).mode is None,
{
    if let Some(m) = e.mode {
        assert(m & 0o777 <= 0o777) by (bit_vector);
    }
}

/// A regular-file record — one whose type flag is the regular marker and
/// that the old-style trailing-slash rule does not turn into a directory —
/// is planned as a regular file at its decoded path under the destination,
/// carrying its content unchanged and its masked permission bits.
pub proof fn lemma_regular_file_planned(dest: Seq<char>, e: EntryModel)
    requires
        e.type_flag == FLAG_REGULAR,
        e.ustar || e.path.len() == 0 || e.path.last() != SLASH_BYTE,
    ensures
        planned_entry(dest, e).action == PlannedAction::File,
        planned_entry(dest, e).content == e.content,
        planned_entry(dest, e).mode == masked_mode(e.mode),
        planned_entry(dest, e).output_path == joined(dest, decoded_chars(e.path)),
{
}

/// An archive with no records still extracts, and plans nothing: the caller
/// creates the destination directory even then, and leaves it empty.
pub proof fn lemma_empty_archive_plans_nothing(env: Envelope, data: Seq<u8>, dest: Seq<char>)
    requires
        unwrapped_stream(env, data) is Some,
        tar_entries_of(unwrapped_stream(env, data).unwrap()) == Some(Seq::<EntryModel>::empty()),
    ensures
        spec_extract(env, data, dest) == Ok::<_, ExtractError>(Seq::<PlanModel>::empty()),
{
    assert(Seq::<EntryModel>::empty().map_values(|e: EntryModel| planned_entry(dest, e))
        =~= Seq::<PlanModel>::empty());
}

/// A stream that does not decode under its declared envelope is rejected
/// before any archive record is read: extraction plans nothing and reports
/// the codec error.
pub proof fn lemma_bad_envelope_rejected(env: Envelope, data: Seq<u8>, dest: Seq<char>)
    requires
        unwrapped_stream(env, data) is None,
    ensures
        spec_extract(env, data, dest) == Err::<Seq<PlanModel>, _>(ExtractError::Codec),
{
}

/// A stream that unwraps but is not a well-formed archive — corrupted or
/// truncated anywhere — is rejected whole: extraction fails with the archive
/// error and plans no entry at all.
pub proof fn lemma_malformed_archive_rejected(env: Envelope, data: Seq<u8>, dest: Seq<char>)
    requires
        unwrapped_stream(env, data) is Some,
        tar_entries_of(unwrapped_stream(env, data).unwrap()) is None,
    ensures
        spec_extract(env, data, dest) == Err::<Seq<PlanModel>, _>(ExtractError::Archive),
{
}

} // verus!
