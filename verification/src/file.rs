//! Firmware kept as a pair of files in a directory: `<name>.json` describes
//! the image and `<name>.bin` holds it.

use vstd::prelude::*;
use vstd::slice::slice_to_vec;
use vstd::std_specs::convert::FromSpecImpl;
use vstd::utf8::encode_utf8;

use crate::metadata::{Metadata, MetadataView};
use crate::store::FirmwareStore;
use crate::text::concat2;

verus! {

/// The description of an image as the directory holds it, with the version
/// as text.
#[derive(Debug, Clone, PartialEq, Eq)]
pub struct FileMetadata {
    pub version: String,
    pub checksum: String,
    pub size: u32,
}

impl FromSpecImpl<FileMetadata> for Metadata {
    open spec fn obeys_from_spec() -> bool {
        false
    }

    open spec fn from_spec(file: FileMetadata) -> Metadata {
        arbitrary()
    }
}

impl From<FileMetadata> for Metadata {
    /// The same description, with the version as the bytes of its text.
    fn from(file: FileMetadata) -> (metadata: Metadata)
        ensures
            metadata@ == (MetadataView {
                version: encode_utf8(file.version@),
                checksum: file.checksum@,
                size: file.size,
            }),
    {
        Metadata {
            version: slice_to_vec(file.version.as_str().as_bytes()),
            checksum: file.checksum,
            size: file.size,
        }
    }
}

/// Access to the files of a directory.
pub trait Directory {
    /// Reads the description in the file `file` of the directory `dir`.
    fn read_metadata(&self, dir: &str, file: &str) -> Result<FileMetadata, String>;

    /// Reads the whole file `file` of the directory `dir`.
    fn read(&self, dir: &str, file: &str) -> Result<Vec<u8>, String>;
}

/// A firmware store on top of a directory.
pub struct FileClient<D: Directory> {
    path: String,
    files: D,
}

/// The name of the file that describes the firmware `name`.
pub open spec fn metadata_file(name: Seq<char>) -> Seq<char> {
    name + ".json"@
}

/// The name of the file that holds the firmware `name`.
pub open spec fn firmware_file(name: Seq<char>) -> Seq<char> {
    name + ".bin"@
}

/// The name of the file that describes the firmware `name`.
pub fn metadata_file_name(name: &str) -> (file: String)
    ensures
        file@ == metadata_file(name@),
{
    concat2(name, ".json")
}

/// The name of the file that holds the firmware `name`.
pub fn firmware_file_name(name: &str) -> (file: String)
    ensures
        file@ == firmware_file(name@),
{
    concat2(name, ".bin")
}

/// The description of an image as metadata: the same, with the version as
/// the bytes of its text.
pub open spec fn file_metadata_view(file: FileMetadata) -> MetadataView {
    MetadataView { version: encode_utf8(file.version@), checksum: file.checksum@, size: file.size }
}

/// `outcome` is what looking for the firmware `name` in the directory `dir`
/// may give, read through `files`: the description that the file
/// `{name}.json` may be read as, or the failure to read it.
pub open spec fn is_file_metadata<D: Directory>(
    files: D,
    dir: Seq<char>,
    name: Seq<char>,
    outcome: Result<((), Option<Metadata>), String>,
) -> bool {
    exists|path: &str, file: &str, read: Result<FileMetadata, String>|
        {
            &&& path@ == dir
            &&& file@ == metadata_file(name)
            &&& #[trigger] call_ensures(D::read_metadata, (&files, path, file), read)
            &&& match read {
                Ok(found) => outcome matches Ok((_, Some(metadata))) && metadata@
                    == file_metadata_view(found),
                Err(e) => outcome == Err::<((), Option<Metadata>), String>(e),
            }
        }
}

/// `outcome` is what asking for the firmware `name` in the directory `dir`
/// may give, read through `files`: what the file `{name}.bin` may be read as.
pub open spec fn is_file_firmware<D: Directory>(
    files: D,
    dir: Seq<char>,
    name: Seq<char>,
    outcome: Result<Vec<u8>, String>,
) -> bool {
    exists|path: &str, file: &str|
        {
            &&& path@ == dir
            &&& file@ == firmware_file(name)
            &&& #[trigger] call_ensures(D::read, (&files, path, file), outcome)
        }
}

impl<D: Directory> FileClient<D> {
    /// The directory that the store reads.
    pub closed spec fn path(&self) -> Seq<char> {
        self.path@
    }

    /// What the store reads the directory through.
    pub closed spec fn files(&self) -> D {
        self.files
    }

    /// A store on the directory `path`, read through `files`.
    pub fn new(path: &str, files: D) -> (client: Self)
        ensures
            client.path() == path@,
            client.files() == files,
    {
        FileClient { path: path.to_owned(), files }
    }
}

impl<D: Directory> FirmwareStore for FileClient<D> {
    type Params = String;

    type Context = ();

    /// The description that the file `{params}.json` of the directory may be
    /// read as, or the failure to read it. The store stays as it is.
    open spec fn may_fetch_metadata(
        &self,
        after: Self,
        params: String,
        outcome: Result<((), Option<Metadata>), String>,
    ) -> bool {
        &&& after == *self
        &&& is_file_metadata(self.files(), self.path(), params@, outcome)
    }

    /// A directory advises no polling interval.
    open spec fn may_get_backoff(&self, context: (), backoff: Option<u32>) -> bool {
        backoff is None
    }

    /// A directory takes no note of progress: nothing happens.
    open spec fn may_update_progress(
        &self,
        after: Self,
        params: String,
        context: (),
        offset: u32,
        size: u32,
        outcome: Result<(), String>,
    ) -> bool {
        after == *self && outcome is Ok
    }

    /// A directory takes no note of devices in sync: nothing happens.
    open spec fn may_mark_synced(
        &self,
        after: Self,
        params: String,
        context: (),
        success: bool,
        outcome: Result<(), String>,
    ) -> bool {
        after == *self && outcome is Ok
    }

    /// What the file `{params}.bin` of the directory may be read as. The
    /// store stays as it is.
    open spec fn may_fetch_firmware(
        &self,
        after: Self,
        params: String,
        context: (),
        metadata: Metadata,
        outcome: Result<Vec<u8>, String>,
    ) -> bool {
        &&& after == *self
        &&& is_file_firmware(self.files(), self.path(), params@, outcome)
    }

    fn fetch_metadata(&mut self, params: &Self::Params) -> (outcome: Result<
        (Self::Context, Option<Metadata>),
        String,
    >) {
        let file = metadata_file_name(params.as_str());
        match self.files.read_metadata(self.path.as_str(), file.as_str()) {
            Ok(found) => Ok(((), Some(Metadata::from(found)))),
            Err(e) => Err(e),
        }
    }

    fn get_backoff(&self, context: &Self::Context) -> (backoff: Option<u32>) {
        None
    }

    fn update_progress(
        &mut self,
        params: &Self::Params,
        context: &Self::Context,
        offset: u32,
        size: u32,
    ) -> (outcome: Result<(), String>) {
        Ok(())
    }

    fn mark_synced(&mut self, params: &Self::Params, context: &Self::Context, success: bool)
        -> (outcome: Result<(), String>) {
        Ok(())
    }

    fn fetch_firmware(
        &mut self,
        params: &Self::Params,
        context: &Self::Context,
        metadata: &Metadata,
    ) -> (outcome: Result<Vec<u8>, String>) {
        let file = firmware_file_name(params.as_str());
        self.files.read(self.path.as_str(), file.as_str())
    }
}

} // verus!
