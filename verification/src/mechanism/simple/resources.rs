//! The resources of the mechanism: which to ask for, and where they go.
//!
//! The mechanism works with two resources, the signature-store configuration
//! and the public key ring. Somebody else fetches them and writes them to
//! disk; here it is decided which are still missing and which file each
//! belongs in.

use crate::error::{ConfigError, Error, ErrorView};
use crate::mechanism::simple::{prepare_dirs, simple_runtime_dirs, SimpleParameters};
use crate::mechanism::{strings_view, ResourceRegistry, ResourceRegistryView};
use crate::text::str_eq;
use vstd::prelude::*;
use vstd::string::*;

verus! {

/// What was seen of the directory of the signature-store configuration.
#[derive(Clone, Copy, Debug, PartialEq, Eq, Structural)]
pub enum ConfigDirState {
    /// The directory could not be read.
    Unreadable,
    /// The directory is there and holds nothing.
    Empty,
    /// The directory holds at least one entry.
    Populated,
}

/// A resource as it came from the resource provider.
#[derive(Clone, Debug, PartialEq, Eq)]
pub struct GatheredResource {
    pub name: String,
    pub bytes: Vec<u8>,
}

/// A file to write: its path and its content.
#[derive(Clone, Debug, PartialEq, Eq)]
pub struct FileWrite {
    pub path: String,
    pub bytes: Vec<u8>,
}

/// The mathematical value of a [`GatheredResource`] and of a [`FileWrite`]:
/// a name or a path, and bytes.
pub struct NamedBytes {
    pub name: Seq<char>,
    pub bytes: Seq<u8>,
}

impl View for GatheredResource {
    type V = NamedBytes;

    open spec fn view(&self) -> NamedBytes {
        NamedBytes { name: self.name@, bytes: self.bytes@ }
    }
}

impl View for FileWrite {
    type V = NamedBytes;

    open spec fn view(&self) -> NamedBytes {
        NamedBytes { name: self.path@, bytes: self.bytes@ }
    }
}

/// The view of a list of gathered resources.
pub open spec fn gathered_view(list: Vec<GatheredResource>) -> Seq<NamedBytes> {
    list@.map_values(|r: GatheredResource| r@)
}

/// The view of a list of files to write.
pub open spec fn writes_view(list: Vec<FileWrite>) -> Seq<NamedBytes> {
    list@.map_values(|w: FileWrite| w@)
}

/// The bytes of the first resource called `name`.
pub open spec fn gathered(resources: Seq<NamedBytes>, name: Seq<char>) -> Option<Seq<u8>>
    decreases resources.len(),
{
    if resources.len() == 0 {
        None
    } else if resources[0].name == name {
        Some(resources[0].bytes)
    } else {
        gathered(resources.drop_first(), name)
    }
}

/// The resources still to ask for, given what is in place already: the
/// signature-store configuration where its directory is there and empty,
/// then the key ring where its file is missing.
pub open spec fn needed_resources(
    registry: ResourceRegistryView,
    config_dir: ConfigDirState,
    key_ring_present: bool,
) -> Seq<Seq<char>> {
    let config = if config_dir == ConfigDirState::Empty {
        seq![registry.sigstore_config_name]
    } else {
        Seq::empty()
    };
    let key_ring = if key_ring_present {
        Seq::empty()
    } else {
        seq![registry.key_ring_name]
    };
    config + key_ring
}

/// The files to write for the resources that were gathered: the
/// signature-store configuration, which has to be UTF-8 text, to
/// `default.yaml` in its directory, then the key ring to its file.
pub open spec fn resource_writes(registry: ResourceRegistryView, resources: Seq<NamedBytes>) -> Result<
    Seq<NamedBytes>,
    ErrorView,
> {
    let key_ring = match gathered(resources, registry.key_ring_name) {
        Some(bytes) => seq![NamedBytes { name: registry.key_ring_path, bytes }],
        None => Seq::empty(),
    };
    match gathered(resources, registry.sigstore_config_name) {
        Some(bytes) => if vstd::utf8::valid_utf8(bytes) {
            Ok(
                seq![
                    NamedBytes { name: registry.sigstore_config_dir + "/default.yaml"@, bytes },
                ] + key_ring,
            )
        } else {
            Err(ErrorView::Config(ConfigError::InvalidResource))
        },
        None => Ok(key_ring),
    }
}

/// Declares the error of `core::str::from_utf8`, so that it can be carried
/// out of the call.
#[verifier::external_type_specification]
#[verifier::external_body]
pub struct ExUtf8Error(core::str::Utf8Error);

/// Calls `core::str::from_utf8`, which accepts the bytes exactly when they
/// are well-formed UTF-8 and then hands them back as the text they encode.
#[verifier::external_body]
fn text_of(bytes: &[u8]) -> (r: Result<&str, core::str::Utf8Error>)
    ensures
        r is Ok <==> vstd::utf8::valid_utf8(bytes@),
        r matches Ok(text) ==> text@ == vstd::utf8::decode_utf8(bytes@),
{
    core::str::from_utf8(bytes)
}

/// Finds the first resource called `name`.
pub fn find_gathered<'a>(resources: &'a Vec<GatheredResource>, name: &str) -> (r: Option<
    &'a Vec<u8>,
>)
    ensures
        match r {
            Some(bytes) => gathered(gathered_view(*resources), name@) == Some(bytes@),
            None => gathered(gathered_view(*resources), name@) is None,
        },
{
    let ghost all = gathered_view(*resources);
    assert(all.skip(0) =~= all);
    let mut k: usize = 0;
    while k < resources.len()
        invariant
            k <= resources.len(),
            all == gathered_view(*resources),
            gathered(all, name@) == gathered(all.skip(k as int), name@),
        decreases resources.len() - k,
    {
        let ghost rest = all.skip(k as int);
        assert(rest[0] == resources@[k as int]@);
        assert(rest.drop_first() =~= all.skip(k + 1));
        if str_eq(resources[k].name.as_str(), name) {
            return Some(&resources[k].bytes);
        }
        k += 1;
    }
    assert(all.skip(k as int).len() == 0);
    None
}

/// A copy of a byte string.
pub fn copy_bytes(bytes: &Vec<u8>) -> (copy: Vec<u8>)
    ensures
        copy@ == bytes@,
{
    let mut copy: Vec<u8> = Vec::new();
    let mut i: usize = 0;
    while i < bytes.len()
        invariant
            i <= bytes.len(),
            copy@ == bytes@.take(i as int),
        decreases bytes.len() - i,
    {
        copy.push(bytes[i]);
        assert(copy@ =~= bytes@.take(i + 1));
        i += 1;
    }
    assert(bytes@.take(i as int) =~= bytes@);
    copy
}

impl SimpleParameters {
    /// The directories that have to exist before the mechanism's resources
    /// are put in place.
    pub fn prepare_runtime_dirs(&self, registry: &ResourceRegistry) -> (dirs: Vec<String>)
        ensures
            strings_view(dirs) == simple_runtime_dirs(registry@),
    {
        prepare_dirs(registry)
    }

    /// The names of the resources still to ask for, given what was seen of
    /// the configuration directory and of the key-ring file.
    pub fn resources_check(
        &self,
        registry: &ResourceRegistry,
        config_dir: ConfigDirState,
        key_ring_present: bool,
    ) -> (names: Vec<String>)
        ensures
            strings_view(names) == needed_resources(registry@, config_dir, key_ring_present),
    {
        let mut names: Vec<String> = Vec::new();
        match config_dir {
            ConfigDirState::Empty => {
                names.push(registry.sigstore_config_name.clone());
            },
            _ => {},
        }
        if !key_ring_present {
            names.push(registry.key_ring_name.clone());
        }
        assert(strings_view(names) =~= needed_resources(registry@, config_dir, key_ring_present));
        names
    }

    /// The files to write for the resources that were gathered.
    pub fn process_gathered_resources(
        &self,
        registry: &ResourceRegistry,
        resources: &Vec<GatheredResource>,
    ) -> (r: Result<Vec<FileWrite>, Error>)
        ensures
            match r {
                Ok(writes) => resource_writes(registry@, gathered_view(*resources)) == Ok::<
                    Seq<NamedBytes>,
                    ErrorView,
                >(writes_view(writes)),
                Err(e) => resource_writes(registry@, gathered_view(*resources)) == Err::<
                    Seq<NamedBytes>,
                    ErrorView,
                >(e@),
            },
    {
        let mut writes: Vec<FileWrite> = Vec::new();
        match find_gathered(resources, registry.sigstore_config_name.as_str()) {
            Some(bytes) => {
                if text_of(bytes.as_slice()).is_err() {
                    return Err(Error::Config(ConfigError::InvalidResource));
                }
                let mut path = registry.sigstore_config_dir.clone();
                path.append("/default.yaml");
                writes.push(FileWrite { path, bytes: copy_bytes(bytes) });
            },
            None => {},
        }
        match find_gathered(resources, registry.key_ring_name.as_str()) {
            Some(bytes) => {
                writes.push(
                    FileWrite { path: registry.key_ring_path.clone(), bytes: copy_bytes(bytes) },
                );
            },
            None => {},
        }
        assert(writes_view(writes) =~= resource_writes(registry@, gathered_view(*resources))->Ok_0);
        Ok(writes)
    }
}

} // verus!
