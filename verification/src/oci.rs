//! Firmware kept as images in a container registry.
//!
//! The firmware is the layer of media type `application/octet-stream`; its
//! digest and size come from the manifest, its version is the tag of the
//! reference that names the image. Descriptions and images are cached, and
//! a cached description is only used while it is fresh.

use vstd::prelude::*;
use vstd::slice::slice_to_vec;
use vstd::utf8::encode_utf8;

use crate::cache::{
    cache_get, cache_new, cache_put, capacity, entries, lemma_stored_is_found, lookup, stored,
    touched, Cache, Cached, CachedView, MAX_CAPACITY,
};
use crate::metadata::{Metadata, MetadataView};
use crate::schema::ImagePullPolicy;
use crate::store::FirmwareStore;
use crate::text::{concat2, str_eq};
use crate::views::{found_view, opt_text};

verus! {

/// How the client presents itself to the registry.
#[derive(Debug, Clone, PartialEq, Eq)]
pub enum RegistryAuth {
    Anonymous,
    Basic(String, String),
}

/// A layer of an image, as its manifest lists it.
#[derive(Debug, Clone, PartialEq, Eq)]
pub struct Layer {
    pub media_type: String,
    pub digest: String,
    pub size: i64,
}

/// An image as the store reads it: the tag of its reference and the layers
/// that its manifest lists.
#[derive(Debug, Clone, PartialEq, Eq)]
pub struct Manifest {
    pub tag: Option<String>,
    pub layers: Vec<Layer>,
}

/// A reference to an image, in its parts: `registry/repository:tag@digest`.
#[derive(Debug, Clone, PartialEq, Eq)]
pub struct ImageReference {
    pub registry: String,
    pub repository: String,
    pub tag: Option<String>,
    pub digest: Option<String>,
}

/// An [`ImageReference`] as plain values.
pub struct ImageReferenceView {
    pub registry: Seq<char>,
    pub repository: Seq<char>,
    pub tag: Option<Seq<char>>,
    pub digest: Option<Seq<char>>,
}

impl View for ImageReference {
    type V = ImageReferenceView;

    open spec fn view(&self) -> ImageReferenceView {
        ImageReferenceView {
            registry: self.registry@,
            repository: self.repository@,
            tag: opt_text(self.tag),
            digest: opt_text(self.digest),
        }
    }
}

/// What reading `text` as an image reference gives: its parts, or the words
/// that say why it is none.
pub uninterp spec fn parsed_reference(text: Seq<char>) -> Result<ImageReferenceView, Seq<char>>;

/// The outcome of reading a reference, as plain values.
pub open spec fn parsing_view(parsed: Result<ImageReference, String>) -> Result<
    ImageReferenceView,
    Seq<char>,
> {
    match parsed {
        Ok(reference) => Ok(reference@),
        Err(e) => Err(e@),
    }
}

/// Calls `oci_distribution::Reference::try_from`, which reads a text as an
/// image reference, and hands out the registry, repository, tag and digest
/// that it found, or the words of its error. The result depends on the text
/// alone; nothing more is claimed of it.
#[verifier::external_body]
pub(crate) fn parse_reference(text: &str) -> (parsed: Result<ImageReference, String>)
    ensures
        parsing_view(parsed) == parsed_reference(text@),
{
    match oci_distribution::Reference::try_from(text) {
        Ok(r) => Ok(
            ImageReference {
                registry: r.registry().to_owned(),
                repository: r.repository().to_owned(),
                tag: r.tag().map(str::to_owned),
                digest: r.digest().map(str::to_owned),
            },
        ),
        Err(e) => Err(e.to_string()),
    }
}

/// Access to a container registry, and a clock.
pub trait ImageRegistry {
    /// The layers that the manifest of the image at `reference` lists.
    fn pull_manifest(&self, reference: &ImageReference, auth: &RegistryAuth) -> Result<
        Vec<Layer>,
        String,
    >;

    /// The layer with digest `digest` of the image at `reference`.
    fn pull_blob(&self, reference: &ImageReference, digest: &str, auth: &RegistryAuth) -> Result<
        Vec<u8>,
        String,
    >;

    /// The time in milliseconds since some fixed moment. It never goes back.
    fn now(&self) -> u64;
}

/// A firmware store on top of a container registry.
pub struct OciClient<R: ImageRegistry> {
    prefix: String,
    auth: RegistryAuth,
    client: R,
    metadata_cache: Cache,
    metadata_cache_expiry: Option<u64>,
    firmware_cache: Cache,
}

/// The media type of the layer that holds the firmware.
pub open spec fn firmware_media_type() -> Seq<char> {
    "application/octet-stream"@
}

/// The error for an image none of whose layers holds firmware.
pub open spec fn no_firmware_layer() -> Seq<char> {
    "Unable to locate metadata in image config"@
}

/// Whether an entry stored at `inserted` may still be used at `now`: always
/// where entries do not expire, else while it is younger than `expiry`.
pub open spec fn fresh(inserted: u64, expiry: Option<u64>, now: u64) -> bool {
    match expiry {
        Some(ttl) => inserted + ttl > now,
        None => true,
    }
}

/// The description that a cache offers for `image` at `now`: the one stored
/// under that name, if it is fresh.
pub open spec fn cached_metadata(
    entries: Seq<(Seq<char>, CachedView)>,
    expiry: Option<u64>,
    image: Seq<char>,
    now: u64,
) -> Option<MetadataView> {
    match lookup(entries, image) {
        Some(CachedView::Metadata { inserted, metadata }) => if fresh(inserted, expiry, now) {
            Some(metadata)
        } else {
            None
        },
        _ => None,
    }
}

/// The image that a cache offers for the digest `checksum`.
pub open spec fn cached_firmware(entries: Seq<(Seq<char>, CachedView)>, checksum: Seq<char>)
    -> Option<Seq<u8>> {
    match lookup(entries, checksum) {
        Some(CachedView::Firmware(bytes)) => Some(bytes),
        _ => None,
    }
}

/// The place of the first layer that holds firmware among the first `n`
/// layers, or `n` where there is none.
pub open spec fn firmware_layer(layers: Seq<Layer>, n: int) -> int
    decreases n,
{
    if n <= 0 {
        0
    } else {
        let before = firmware_layer(layers, n - 1);
        if before < n - 1 {
            before
        } else if layers[n - 1].media_type@ == firmware_media_type() {
            n - 1
        } else {
            n
        }
    }
}

/// The description of the firmware in an image: version from the tag (empty
/// where the image has none), digest and size from the first layer that holds
/// firmware. There is none where no layer does.
pub open spec fn manifest_metadata(manifest: Manifest) -> Option<MetadataView> {
    let at = firmware_layer(manifest.layers@, manifest.layers@.len() as int);
    if at < manifest.layers@.len() {
        Some(
            MetadataView {
                version: match manifest.tag {
                    Some(tag) => encode_utf8(tag@),
                    None => Seq::<u8>::empty(),
                },
                checksum: manifest.layers@[at].digest@,
                size: manifest.layers@[at].size as u32,
            },
        )
    } else {
        None
    }
}

proof fn lemma_firmware_layer_stops(layers: Seq<Layer>, i: int, n: int)
    requires
        0 <= i <= n <= layers.len(),
        firmware_layer(layers, i) == i,
        i < n ==> layers[i].media_type@ == firmware_media_type(),
    ensures
        firmware_layer(layers, n) == i,
    decreases n - i,
{
    if i < n {
        if i + 1 < n {
            lemma_firmware_layer_stops(layers, i, n - 1);
        }
    }
}

/// Reads the description of the firmware off the manifest of its image.
pub fn select_layer(manifest: &Manifest) -> (found: Option<Metadata>)
    ensures
        found_view(found) == manifest_metadata(*manifest),
{
    let n = manifest.layers.len();
    let mut i: usize = 0;
    while i < n
        invariant
            i <= n,
            n == manifest.layers@.len(),
            firmware_layer(manifest.layers@, i as int) == i,
        decreases n - i,
    {
        let layer = &manifest.layers[i];
        if str_eq(layer.media_type.as_str(), "application/octet-stream") {
            proof {
                lemma_firmware_layer_stops(manifest.layers@, i as int, n as int);
            }
            let version = match &manifest.tag {
                Some(tag) => slice_to_vec(tag.as_str().as_bytes()),
                None => Vec::new(),
            };
            return Some(
                Metadata { version, checksum: layer.digest.clone(), size: layer.size as u32 },
            );
        }
        i += 1;
    }
    None
}

/// A number of seconds in milliseconds, or the largest number where that
/// is too large.
pub fn millis(seconds: u64) -> (ms: u64)
    ensures
        ms == if seconds * 1000 <= u64::MAX {
            (seconds * 1000) as u64
        } else {
            u64::MAX
        },
{
    match seconds.checked_mul(1000) {
        Some(ms) => ms,
        None => u64::MAX,
    }
}

/// Whether an entry stored at `inserted` may still be used at `now`.
pub fn is_fresh(inserted: u64, expiry: Option<u64>, now: u64) -> (ok: bool)
    ensures
        ok == fresh(inserted, expiry, now),
{
    match expiry {
        Some(ttl) => match inserted.checked_add(ttl) {
            Some(end) => end > now,
            None => true,
        },
        None => true,
    }
}

/// What asking for a description gave, taken by its value.
pub open spec fn fetched_view(outcome: Result<Option<Metadata>, String>) -> Result<
    Option<MetadataView>,
    Seq<char>,
> {
    match outcome {
        Ok(Some(metadata)) => Ok(Some(metadata@)),
        Ok(None) => Ok(None),
        Err(e) => Err(e@),
    }
}

impl<R: ImageRegistry> OciClient<R> {
    /// The entries of the cache of descriptions, most recently used first.
    pub closed spec fn metadata_entries(&self) -> Seq<(Seq<char>, CachedView)> {
        entries(self.metadata_cache)
    }

    /// The entries of the cache of images, most recently used first.
    pub closed spec fn firmware_entries(&self) -> Seq<(Seq<char>, CachedView)> {
        entries(self.firmware_cache)
    }

    /// The number of entries that each cache holds at most.
    pub closed spec fn cache_size(&self) -> nat {
        capacity(self.metadata_cache)
    }

    /// How long a description stays fresh, in milliseconds, if it expires at all.
    pub closed spec fn expiry(&self) -> Option<u64> {
        self.metadata_cache_expiry
    }

    /// What is put in front of the name of an image to make its reference.
    pub closed spec fn prefix(&self) -> Seq<char> {
        self.prefix@
    }

    /// How the client presents itself to the registry.
    pub closed spec fn auth(&self) -> RegistryAuth {
        self.auth
    }

    /// The number of entries that the cache of images holds at most.
    pub closed spec fn firmware_cache_size(&self) -> nat {
        capacity(self.firmware_cache)
    }

    /// The registry that is asked.
    pub closed spec fn registry(&self) -> R {
        self.client
    }

    /// Whether `after` is the client with the same settings and the same
    /// registry: nothing but what the caches hold may differ.
    pub open spec fn same_settings(&self, after: Self) -> bool {
        &&& after.cache_size() == self.cache_size()
        &&& after.firmware_cache_size() == self.firmware_cache_size()
        &&& after.expiry() == self.expiry()
        &&& after.prefix() == self.prefix()
        &&& after.auth() == self.auth()
        &&& after.registry() == self.registry()
    }

    /// `outcome` is what the registry may give for the description of the
    /// firmware in an image, given what reading its name as a reference gave.
    ///
    /// Where the name is no reference, the words that say so are the error.
    /// Else the registry is asked for the manifest at that reference: the
    /// version is the tag of the reference, digest and size are those of the
    /// firmware layer. A failure to get the manifest is the error, and so is
    /// a manifest without such a layer.
    pub open spec fn is_metadata_at(
        &self,
        parsed: Result<ImageReferenceView, Seq<char>>,
        outcome: Result<Option<Metadata>, String>,
    ) -> bool {
        match parsed {
            Ok(parts) => exists|reference: ImageReference, pulled: Result<Vec<Layer>, String>|
                {
                    &&& reference@ == parts
                    &&& #[trigger] call_ensures(
                        R::pull_manifest,
                        (&self.registry(), &reference, &self.auth()),
                        pulled,
                    )
                    &&& match pulled {
                        Ok(layers) => match manifest_metadata(
                            Manifest { tag: reference.tag, layers },
                        ) {
                            Some(metadata) => fetched_view(outcome) == Ok::<
                                Option<MetadataView>,
                                Seq<char>,
                            >(Some(metadata)),
                            None => fetched_view(outcome) == Err::<
                                Option<MetadataView>,
                                Seq<char>,
                            >(no_firmware_layer()),
                        },
                        Err(e) => outcome == Err::<Option<Metadata>, String>(e),
                    }
                },
            Err(e) => fetched_view(outcome) == Err::<Option<MetadataView>, Seq<char>>(e),
        }
    }

    /// `outcome` is what the registry may give for the layer with the digest
    /// `checksum` of an image, given what reading its name as a reference
    /// gave: the answer of the registry, or the words that say why the name
    /// is no reference.
    pub open spec fn is_firmware_at(
        &self,
        parsed: Result<ImageReferenceView, Seq<char>>,
        checksum: Seq<char>,
        outcome: Result<Vec<u8>, String>,
    ) -> bool {
        match parsed {
            Ok(parts) => exists|reference: ImageReference, digest: &str|
                {
                    &&& reference@ == parts
                    &&& digest@ == checksum
                    &&& #[trigger] call_ensures(
                        R::pull_blob,
                        (&self.registry(), &reference, digest, &self.auth()),
                        outcome,
                    )
                },
            Err(e) => outcome is Err && outcome->Err_0@ == e,
        }
    }

    /// `outcome` is what the registry may give for the description of the
    /// firmware in `image`, whose name, behind the prefix of this client, is
    /// read as a reference.
    pub open spec fn is_pulled_metadata(
        &self,
        image: Seq<char>,
        outcome: Result<Option<Metadata>, String>,
    ) -> bool {
        self.is_metadata_at(parsed_reference(self.prefix() + image), outcome)
    }

    /// `outcome` is what the registry may give for the layer with the digest
    /// `checksum` of `image`, whose name, behind the prefix of this client,
    /// is read as a reference.
    pub open spec fn is_pulled_firmware(
        &self,
        image: Seq<char>,
        checksum: Seq<char>,
        outcome: Result<Vec<u8>, String>,
    ) -> bool {
        self.is_firmware_at(parsed_reference(self.prefix() + image), checksum, outcome)
    }

    /// `outcome` is what asking this client for the description of the
    /// firmware in `image` at `now` may give, and `after` the client
    /// afterwards.
    ///
    /// Under `IfNotPresent` a fresh description from the cache is the answer,
    /// and the entry counts as used. Otherwise the registry is asked, and what
    /// it gives is stored under the name of the image, with `now` as the time
    /// of storing.
    pub open spec fn is_metadata_fetch(
        &self,
        after: Self,
        image: Seq<char>,
        image_pull_policy: ImagePullPolicy,
        now: u64,
        outcome: Result<Option<Metadata>, String>,
    ) -> bool {
        let cached = image_pull_policy == ImagePullPolicy::IfNotPresent;
        let before = self.metadata_entries();
        let seen = if cached {
            touched(before, image)
        } else {
            before
        };
        let offered = if cached {
            cached_metadata(before, self.expiry(), image, now)
        } else {
            None
        };
        &&& self.same_settings(after)
        &&& after.firmware_entries() == self.firmware_entries()
        &&& match offered {
            Some(metadata) => fetched_view(outcome) == Ok::<Option<MetadataView>, Seq<char>>(
                Some(metadata),
            ) && after.metadata_entries() == seen,
            None => {
                &&& self.is_pulled_metadata(image, outcome)
                &&& match outcome {
                    Ok(Some(metadata)) => after.metadata_entries() == stored(
                        seen,
                        self.cache_size(),
                        image,
                        CachedView::Metadata { inserted: now, metadata: metadata@ },
                    ),
                    Ok(None) => false,
                    Err(_) => after.metadata_entries() == seen,
                }
            },
        }
    }

    /// `outcome` is what asking this client for the firmware that `metadata`
    /// describes may give, and `after` the client afterwards.
    ///
    /// Under `IfNotPresent` the image stored under its digest is the answer,
    /// and the entry counts as used. Otherwise the registry is asked for the
    /// layer with that digest, and what it gives is stored under the digest.
    pub open spec fn is_firmware_fetch(
        &self,
        after: Self,
        image: Seq<char>,
        metadata: MetadataView,
        image_pull_policy: ImagePullPolicy,
        outcome: Result<Vec<u8>, String>,
    ) -> bool {
        let cached = image_pull_policy == ImagePullPolicy::IfNotPresent;
        let before = self.firmware_entries();
        let seen = if cached {
            touched(before, metadata.checksum)
        } else {
            before
        };
        let offered = if cached {
            cached_firmware(before, metadata.checksum)
        } else {
            None
        };
        &&& self.same_settings(after)
        &&& after.metadata_entries() == self.metadata_entries()
        &&& match offered {
            Some(bytes) => {
                &&& outcome is Ok
                &&& outcome->Ok_0@ == bytes
                &&& after.firmware_entries() == seen
            },
            None => {
                &&& self.is_pulled_firmware(image, metadata.checksum, outcome)
                &&& match outcome {
                    Ok(bytes) => after.firmware_entries() == stored(
                        seen,
                        self.firmware_cache_size(),
                        metadata.checksum,
                        CachedView::Firmware(bytes@),
                    ),
                    Err(_) => after.firmware_entries() == seen,
                }
            },
        }
    }

    /// A client with empty caches of `cache_size` entries each. With a token
    /// it presents itself by name (the empty name where none is given) and
    /// token, else anonymously.
    pub fn new(
        client: R,
        prefix: String,
        user: Option<String>,
        token: Option<String>,
        cache_size: usize,
        metadata_cache_expiry: Option<u64>,
    ) -> (oci: Self)
        requires
            cache_size <= MAX_CAPACITY,
        ensures
            oci.metadata_entries() == Seq::<(Seq<char>, CachedView)>::empty(),
            oci.firmware_entries() == Seq::<(Seq<char>, CachedView)>::empty(),
            oci.cache_size() == cache_size,
            oci.firmware_cache_size() == cache_size,
            oci.expiry() == metadata_cache_expiry,
            oci.prefix() == prefix@,
            oci.registry() == client,
            match token {
                Some(t) => oci.auth() matches RegistryAuth::Basic(name, secret) && secret == t
                    && name@ == match user {
                    Some(u) => u@,
                    None => Seq::<char>::empty(),
                },
                None => oci.auth() == RegistryAuth::Anonymous,
            },
    {
        let auth = match token {
            Some(t) => RegistryAuth::Basic(
                match user {
                    Some(u) => u,
                    None => String::new(),
                },
                t,
            ),
            None => RegistryAuth::Anonymous,
        };
        OciClient {
            client,
            prefix,
            auth,
            metadata_cache: cache_new(cache_size),
            firmware_cache: cache_new(cache_size),
            metadata_cache_expiry,
        }
    }

    /// Asks the cache for the description of `image`: the one stored under
    /// that name, if it is fresh at `now`. Asking counts as a use of the entry.
    pub fn lookup_metadata(&mut self, image: &str, now: u64) -> (found: Option<Metadata>)
        ensures
            found_view(found) == cached_metadata(
                old(self).metadata_entries(),
                old(self).expiry(),
                image@,
                now,
            ),
            final(self).metadata_entries() == touched(old(self).metadata_entries(), image@),
            final(self).firmware_entries() == old(self).firmware_entries(),
            old(self).same_settings(*final(self)),
            final(self).cache_size() == old(self).cache_size(),
            final(self).firmware_cache_size() == old(self).firmware_cache_size(),
            final(self).expiry() == old(self).expiry(),
            final(self).prefix() == old(self).prefix(),
    {
        let key = image.to_owned();
        match cache_get(&mut self.metadata_cache, &key) {
            Some(Cached::Metadata { inserted, metadata }) => if is_fresh(
                inserted,
                self.metadata_cache_expiry,
                now,
            ) {
                Some(metadata)
            } else {
                None
            },
            _ => None,
        }
    }

    /// Asks the cache for the image with digest `checksum`. Asking counts as
    /// a use of the entry.
    pub fn lookup_firmware(&mut self, checksum: &str) -> (found: Option<Vec<u8>>)
        ensures
            match found {
                Some(bytes) => Some(bytes@),
                None => None,
            } == cached_firmware(old(self).firmware_entries(), checksum@),
            final(self).firmware_entries() == touched(old(self).firmware_entries(), checksum@),
            final(self).metadata_entries() == old(self).metadata_entries(),
            old(self).same_settings(*final(self)),
            final(self).cache_size() == old(self).cache_size(),
            final(self).firmware_cache_size() == old(self).firmware_cache_size(),
            final(self).expiry() == old(self).expiry(),
            final(self).prefix() == old(self).prefix(),
    {
        let key = checksum.to_owned();
        match cache_get(&mut self.firmware_cache, &key) {
            Some(Cached::Firmware(bytes)) => Some(bytes),
            _ => None,
        }
    }

    /// Asks the registry for the description of the firmware in an image,
    /// given what reading its name as a reference gave. The caches are not
    /// looked at.
    pub fn pull_metadata(&self, parsed: Result<ImageReference, String>) -> (outcome: Result<
        Option<Metadata>,
        String,
    >)
        ensures
            self.is_metadata_at(parsing_view(parsed), outcome),
            !(outcome matches Ok(None)),
    {
        let reference = match parsed {
            Ok(reference) => reference,
            Err(e) => return Err(e),
        };
        let pulled = self.client.pull_manifest(&reference, &self.auth);
        assert(call_ensures(
            R::pull_manifest,
            (&self.registry(), &reference, &self.auth()),
            pulled,
        ));
        match pulled {
            Ok(layers) => match select_layer(&Manifest { tag: reference.tag, layers }) {
                Some(metadata) => Ok(Some(metadata)),
                None => Err("Unable to locate metadata in image config".to_owned()),
            },
            Err(e) => Err(e),
        }
    }

    /// Asks the registry for the layer with the digest `checksum` of an
    /// image, given what reading its name as a reference gave. The caches are
    /// not looked at.
    pub fn pull_firmware(&self, parsed: Result<ImageReference, String>, checksum: &str) -> (outcome:
        Result<Vec<u8>, String>)
        ensures
            self.is_firmware_at(parsing_view(parsed), checksum@, outcome),
    {
        let reference = match parsed {
            Ok(reference) => reference,
            Err(e) => return Err(e),
        };
        let pulled = self.client.pull_blob(&reference, checksum, &self.auth);
        assert(call_ensures(
            R::pull_blob,
            (&self.registry(), &reference, checksum, &self.auth()),
            pulled,
        ));
        pulled
    }

    /// The description of the firmware in `image`.
    ///
    /// Under `IfNotPresent` a fresh description from the cache is the answer.
    /// Otherwise the registry is asked, and what it gives is stored under the
    /// name of the image, with `now` as the time of storing. An image without
    /// a firmware layer is an error.
    pub fn fetch_metadata(&mut self, image: &str, image_pull_policy: ImagePullPolicy, now: u64)
        -> (outcome: Result<Option<Metadata>, String>)
        ensures
            final(self).firmware_entries() == old(self).firmware_entries(),
            final(self).cache_size() == old(self).cache_size(),
            final(self).firmware_cache_size() == old(self).firmware_cache_size(),
            final(self).expiry() == old(self).expiry(),
            final(self).prefix() == old(self).prefix(),
            old(self).is_metadata_fetch(*final(self), image@, image_pull_policy, now, outcome),
    {
        if let ImagePullPolicy::IfNotPresent = image_pull_policy {
            if let Some(metadata) = self.lookup_metadata(image, now) {
                return Ok(Some(metadata));
            }
        }
        let name = concat2(self.prefix.as_str(), image);
        match self.pull_metadata(parse_reference(name.as_str())) {
            Ok(Some(metadata)) => {
                cache_put(
                    &mut self.metadata_cache,
                    image.to_owned(),
                    Cached::Metadata { inserted: now, metadata: metadata.clone() },
                );
                Ok(Some(metadata))
            },
            Ok(None) => Ok(None),
            Err(e) => Err(e),
        }
    }

    /// The bytes of the firmware that `metadata` describes.
    ///
    /// Under `IfNotPresent` the image stored under its digest is the answer.
    /// Otherwise the registry is asked for the layer with that digest, and
    /// what it gives is stored under the digest.
    pub fn fetch_firmware(
        &mut self,
        image: &str,
        metadata: &Metadata,
        image_pull_policy: ImagePullPolicy,
    ) -> (outcome: Result<Vec<u8>, String>)
        ensures
            final(self).metadata_entries() == old(self).metadata_entries(),
            final(self).cache_size() == old(self).cache_size(),
            final(self).firmware_cache_size() == old(self).firmware_cache_size(),
            final(self).expiry() == old(self).expiry(),
            final(self).prefix() == old(self).prefix(),
            old(self).is_firmware_fetch(
                *final(self),
                image@,
                metadata@,
                image_pull_policy,
                outcome,
            ),
    {
        if let ImagePullPolicy::IfNotPresent = image_pull_policy {
            if let Some(firmware) = self.lookup_firmware(metadata.checksum.as_str()) {
                return Ok(firmware);
            }
        }
        let name = concat2(self.prefix.as_str(), image);
        match self.pull_firmware(parse_reference(name.as_str()), metadata.checksum.as_str()) {
            Ok(payload) => {
                cache_put(
                    &mut self.firmware_cache,
                    metadata.checksum.clone(),
                    Cached::Firmware(slice_to_vec(payload.as_slice())),
                );
                Ok(payload)
            },
            Err(e) => Err(e),
        }
    }
}

impl<R: ImageRegistry> FirmwareStore for OciClient<R> {
    type Params = (String, ImagePullPolicy);

    type Context = ();

    /// The description of the firmware in the image `params.0`, under the
    /// policy `params.1`, at a time that the clock of the registry may show.
    open spec fn may_fetch_metadata(
        &self,
        after: Self,
        params: (String, ImagePullPolicy),
        outcome: Result<((), Option<Metadata>), String>,
    ) -> bool {
        exists|now: u64|
            {
                &&& #[trigger] call_ensures(R::now, (&self.registry(),), now)
                &&& self.is_metadata_fetch(
                    after,
                    params.0@,
                    params.1,
                    now,
                    match outcome {
                        Ok((_, metadata)) => Ok(metadata),
                        Err(e) => Err(e),
                    },
                )
            }
    }

    /// A registry advises no polling interval.
    open spec fn may_get_backoff(&self, context: (), backoff: Option<u32>) -> bool {
        backoff is None
    }

    /// A registry takes no note of progress: nothing happens.
    open spec fn may_update_progress(
        &self,
        after: Self,
        params: (String, ImagePullPolicy),
        context: (),
        offset: u32,
        size: u32,
        outcome: Result<(), String>,
    ) -> bool {
        after == *self && outcome is Ok
    }

    /// A registry takes no note of devices in sync: nothing happens.
    open spec fn may_mark_synced(
        &self,
        after: Self,
        params: (String, ImagePullPolicy),
        context: (),
        success: bool,
        outcome: Result<(), String>,
    ) -> bool {
        after == *self && outcome is Ok
    }

    /// The bytes of the firmware that `metadata` describes, of the image
    /// `params.0`, under the policy `params.1`.
    open spec fn may_fetch_firmware(
        &self,
        after: Self,
        params: (String, ImagePullPolicy),
        context: (),
        metadata: Metadata,
        outcome: Result<Vec<u8>, String>,
    ) -> bool {
        self.is_firmware_fetch(after, params.0@, metadata@, params.1, outcome)
    }

    fn fetch_metadata(&mut self, params: &Self::Params) -> (outcome: Result<
        (Self::Context, Option<Metadata>),
        String,
    >) {
        let now = self.client.now();
        match OciClient::fetch_metadata(self, params.0.as_str(), params.1, now) {
            Ok(metadata) => Ok(((), metadata)),
            Err(e) => Err(e),
        }
    }

    fn get_backoff(&self, context: &Self::Context) -> (backoff: Option<u32>) {
        None
    }

    fn update_progress(
        &mut self,
        params: &Self::Params,
        context: &Self::Context,
        offset: u32,
        size: u32,
    ) -> (outcome: Result<(), String>) {
        Ok(())
    }

    fn mark_synced(&mut self, params: &Self::Params, context: &Self::Context, success: bool)
        -> (outcome: Result<(), String>) {
        Ok(())
    }

    fn fetch_firmware(
        &mut self,
        params: &Self::Params,
        context: &Self::Context,
        metadata: &Metadata,
    ) -> (outcome: Result<Vec<u8>, String>) {
        OciClient::fetch_firmware(self, params.0.as_str(), metadata, params.1)
    }
}

/// The cache never offers a description that is past its time: whatever it
/// offers at `now` was stored under that name at a moment from which it is
/// still fresh.
pub proof fn lemma_offered_metadata_is_fresh(
    entries: Seq<(Seq<char>, CachedView)>,
    expiry: Option<u64>,
    image: Seq<char>,
    now: u64,
)
    ensures
        match cached_metadata(entries, expiry, image, now) {
            Some(metadata) => exists|inserted: u64|
                lookup(entries, image) == Some(CachedView::Metadata { inserted, metadata })
                    && fresh(inserted, expiry, now),
            None => true,
        },
{
    match lookup(entries, image) {
        Some(CachedView::Metadata { inserted, metadata }) => {
            if fresh(inserted, expiry, now) {
                assert(lookup(entries, image) == Some(CachedView::Metadata { inserted, metadata })
                    && fresh(inserted, expiry, now));
            }
        },
        _ => {},
    }
}

/// A description that was stored at `inserted` is offered afterwards exactly
/// while it is fresh.
pub proof fn lemma_stored_metadata_expires(
    entries: Seq<(Seq<char>, CachedView)>,
    capacity: nat,
    expiry: Option<u64>,
    image: Seq<char>,
    inserted: u64,
    metadata: MetadataView,
    now: u64,
)
    requires
        capacity > 0,
    ensures
        cached_metadata(
            stored(entries, capacity, image, CachedView::Metadata { inserted, metadata }),
            expiry,
            image,
            now,
        ) == if fresh(inserted, expiry, now) {
            Some(metadata)
        } else {
            None
        },
{
    lemma_stored_is_found(entries, capacity, image, CachedView::Metadata { inserted, metadata });
}

} // verus!
