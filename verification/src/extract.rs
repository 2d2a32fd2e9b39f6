//! Choosing how an archive is unpacked, from its file name alone.

use crate::error::RezToolsError;
use crate::text::{
    chars_of, copy_range, ends_with, has_suffix, index_back, lowercase_chars, lowercase_of,
    rfind_char, same_text, string_of,
};
use vstd::prelude::*;
use vstd::string::*;

verus! {

/// Archive extraction utilities.
#[derive(Debug, Clone, Copy)]
pub struct Extractor;

/// The archive formats that can be unpacked.
#[derive(Debug, Clone, Copy, PartialEq, Eq, Structural)]
pub enum ArchiveFormat {
    /// A ZIP archive, unpacked member by member.
    Zip,
    /// A gzip-compressed tar archive, decompressed as it is unpacked.
    TarGz,
    /// A plain tar archive.
    Tar,
}

/// What is done with one member of a ZIP archive.
#[derive(Debug, Clone, Copy, PartialEq, Eq, Structural)]
pub enum ZipEntryAction {
    /// The member's name would leave the destination: it is passed over.
    Skip,
    /// The member is a directory: it is created, with its parents.
    CreateDir,
    /// The member is a file: its parent is created where missing, and its
    /// content written.
    WriteFile,
}

/// The extension of a file name: what follows its last dot. A name without
/// a dot, or whose only dot is its first character, has none, shown here as
/// the empty text.
pub open spec fn extension_of(name: Seq<char>) -> Seq<char> {
    let j = index_back(name, '.', name.len() as int);
    if j <= 1 {
        seq![]
    } else {
        name.subrange(j, name.len() as int)
    }
}

/// The name ends as a gzip-compressed tar archive does.
pub open spec fn has_tar_gz_suffix(name: Seq<char>) -> bool {
    has_suffix(name, ".tar.gz"@) || has_suffix(name, ".tgz"@)
}

/// The format for a file name whose extension, in lower case, is `lowered`;
/// `None` where the name is not that of a supported archive.
pub open spec fn format_for(name: Seq<char>, lowered: Seq<char>) -> Option<ArchiveFormat> {
    if lowered == "zip"@ {
        Some(ArchiveFormat::Zip)
    } else if lowered == "gz"@ || lowered == "tgz"@ {
        if has_tar_gz_suffix(name) {
            Some(ArchiveFormat::TarGz)
        } else {
            None
        }
    } else if lowered == "tar"@ {
        Some(ArchiveFormat::Tar)
    } else {
        None
    }
}

/// The format of the archive with the given file name.
pub open spec fn format_of(name: Seq<char>) -> Option<ArchiveFormat> {
    format_for(name, lowercase_of(extension_of(name)))
}

/// The message of the error for a name that is no supported archive: it
/// shows the extension as the name has it.
pub open spec fn unsupported_message(name: Seq<char>) -> Seq<char> {
    "Unsupported archive format: "@ + extension_of(name)
}

proof fn lemma_last_dot(s: Seq<char>, j: int)
    requires
        0 <= j <= s.len(),
    ensures
        0 <= index_back(s, '.', j) <= j,
        index_back(s, '.', j) > 0 ==> s[index_back(s, '.', j) - 1] == '.',
    decreases j,
{
    if 0 < j && s[j - 1] != '.' {
        lemma_last_dot(s, j - 1);
    }
}

/// A name with the extension `ext` ends with a dot and `ext`.
proof fn lemma_name_ends_with_extension(name: Seq<char>)
    requires
        extension_of(name).len() > 0,
    ensures
        has_suffix(name, seq!['.'] + extension_of(name)),
{
    lemma_last_dot(name, name.len() as int);
    let j = index_back(name, '.', name.len() as int);
    let tail = seq!['.'] + extension_of(name);
    assert(name.subrange(j - 1, name.len() as int) =~= tail);
    assert(name.len() - tail.len() == j - 1);
}

/// Any other suffix is refused: a name whose extension is written in lower
/// case and that ends with none of `.zip`, `.tar`, `.tar.gz` and `.tgz` is
/// the name of no supported archive. (An extension in capitals is read
/// without regard to case, so `A.ZIP` is a ZIP archive.)
pub proof fn lemma_other_suffixes_are_refused(name: Seq<char>)
    requires
        lowercase_of(extension_of(name)) == extension_of(name),
        !has_suffix(name, ".zip"@),
        !has_suffix(name, ".tar"@),
        !has_suffix(name, ".tar.gz"@),
        !has_suffix(name, ".tgz"@),
    ensures
        format_of(name) is None,
{
    reveal_strlit("zip");
    reveal_strlit("tar");
    reveal_strlit(".zip");
    reveal_strlit(".tar");
    let ext = extension_of(name);
    if ext == "zip"@ || ext == "tar"@ {
        lemma_name_ends_with_extension(name);
        assert(seq!['.'] + "zip"@ =~= ".zip"@);
        assert(seq!['.'] + "tar"@ =~= ".tar"@);
    }
}

/// A name is refused exactly where no format is chosen for it, and a
/// format is chosen only from the extension: `zip`, `tar`, and `gz` or `tgz`
/// on a name that ends as a compressed tar archive does.
pub proof fn lemma_format_goes_by_extension(name: Seq<char>)
    ensures
        format_of(name) == Some(ArchiveFormat::Zip) <==> lowercase_of(extension_of(name))
            == "zip"@,
        format_of(name) == Some(ArchiveFormat::Tar) <==> lowercase_of(extension_of(name))
            == "tar"@,
        format_of(name) == Some(ArchiveFormat::TarGz) ==> has_tar_gz_suffix(name),
{
    reveal_strlit("zip");
    reveal_strlit("tar");
    reveal_strlit("gz");
    reveal_strlit("tgz");
    assert("zip"@[0] == 'z' && "tar"@[0] == 't' && "gz"@[0] == 'g' && "tgz"@[1] == 'g'
        && "tar"@[1] == 'a');
    assert("gz"@.len() == 2 && "zip"@.len() == 3 && "tar"@.len() == 3 && "tgz"@.len() == 3);
}

/// The extension of a file name.
pub fn extension(name: &Vec<char>) -> (ext: Vec<char>)
    ensures
        ext@ == extension_of(name@),
{
    let j = rfind_char(name, '.');
    if j <= 1 {
        Vec::new()
    } else {
        copy_range(name, j, name.len())
    }
}

impl Extractor {
    /// The format for a file name, given its extension in lower case: `zip`
    /// is a ZIP archive, `tar` a tar archive, and `gz` or `tgz` a compressed
    /// tar archive where the name ends in `.tar.gz` or `.tgz`. Anything else
    /// is refused with an error that shows the extension.
    pub fn classify(file_name: &str, lowered_extension: &str) -> (r: Result<
        ArchiveFormat,
        RezToolsError,
    >)
        ensures
            match format_for(file_name@, lowered_extension@) {
                Some(f) => r == Ok::<ArchiveFormat, RezToolsError>(f),
                None => r is Err && r->Err_0.is_config(unsupported_message(file_name@)),
            },
    {
        let name = chars_of(file_name);
        let low = chars_of(lowered_extension);
        let found = if same_text(&low, &chars_of("zip")) {
            Some(ArchiveFormat::Zip)
        } else if same_text(&low, &chars_of("gz")) || same_text(&low, &chars_of("tgz")) {
            if ends_with(&name, &chars_of(".tar.gz")) || ends_with(&name, &chars_of(".tgz")) {
                Some(ArchiveFormat::TarGz)
            } else {
                None
            }
        } else if same_text(&low, &chars_of("tar")) {
            Some(ArchiveFormat::Tar)
        } else {
            None
        };
        match found {
            Some(f) => Ok(f),
            None => {
                let ext = string_of(&extension(&name));
                Err(
                    RezToolsError::ConfigError(
                        String::from_str("Unsupported archive format: ").concat(ext.as_str()),
                    ),
                )
            },
        }
    }

    /// The format of the archive with the given file name, chosen by the
    /// name's extension without regard to case.
    pub fn archive_format(file_name: &str) -> (r: Result<ArchiveFormat, RezToolsError>)
        ensures
            match format_of(file_name@) {
                Some(f) => r == Ok::<ArchiveFormat, RezToolsError>(f),
                None => r is Err && r->Err_0.is_config(unsupported_message(file_name@)),
            },
    {
        let name = chars_of(file_name);
        let low = string_of(&lowercase_chars(&extension(&name)));
        Extractor::classify(file_name, low.as_str())
    }

    /// What is done with the member of a ZIP archive that has the given
    /// name: a member whose name does not stay inside the destination is
    /// passed over, a name that ends in a slash is a directory, any other a
    /// file.
    pub fn zip_entry_action(entry_name: &str, stays_inside: bool) -> (a: ZipEntryAction)
        ensures
            a == if !stays_inside {
                ZipEntryAction::Skip
            } else if has_suffix(entry_name@, seq!['/']) {
                ZipEntryAction::CreateDir
            } else {
                ZipEntryAction::WriteFile
            },
    {
        if !stays_inside {
            return ZipEntryAction::Skip;
        }
        let name = chars_of(entry_name);
        let mut slash: Vec<char> = Vec::new();
        slash.push('/');
        assert(slash@ =~= seq!['/']);
        if ends_with(&name, &slash) {
            ZipEntryAction::CreateDir
        } else {
            ZipEntryAction::WriteFile
        }
    }
}

} // verus!
