//! Shader modules: which variant of a package is compiled, and the cache of
//! compiled modules.
use vstd::prelude::*;
use std::collections::HashSet;
use crate::error::{Error, ErrorKind, fatal_error, recoverable_error};
use crate::types::{ShaderPackage, ShaderPayload};

verus! {

broadcast use vstd::std_specs::hash::group_hash_axioms;

/// Whether `b` starts with the SPIR-V magic number written least
/// significant byte first.
pub open spec fn spirv_le_magic(b: Seq<u8>) -> bool {
    b.len() >= 4 && b[0] == 0x03 && b[1] == 0x02 && b[2] == 0x23 && b[3] == 0x07
}

/// Whether `b` starts with the SPIR-V magic number written most
/// significant byte first.
pub open spec fn spirv_be_magic(b: Seq<u8>) -> bool {
    b.len() >= 4 && b[0] == 0x07 && b[1] == 0x23 && b[2] == 0x02 && b[3] == 0x03
}

/// Whether `b` can be read as SPIR-V words: it starts with the magic
/// number in either byte order and has a whole number of words.
pub open spec fn is_spirv_module(b: Seq<u8>) -> bool {
    (spirv_le_magic(b) || spirv_be_magic(b)) && b.len() % 4 == 0
}

/// The word at byte `k` of `b`, read least significant byte first.
pub open spec fn le_word(b: Seq<u8>, k: int) -> u32 {
    (b[k] as int + 256 * b[k + 1] as int + 65536 * b[k + 2] as int + 16777216 * b[k + 3] as int) as u32
}

/// The word at byte `k` of `b`, read most significant byte first.
pub open spec fn be_word(b: Seq<u8>, k: int) -> u32 {
    (b[k + 3] as int + 256 * b[k + 2] as int + 65536 * b[k + 1] as int + 16777216 * b[k] as int) as u32
}

/// The words of a SPIR-V module: each four bytes read in the byte order
/// that the magic number shows.
pub open spec fn spec_spirv_words(b: Seq<u8>) -> Seq<u32> {
    Seq::new(
        (b.len() / 4) as nat,
        |i: int| if spirv_le_magic(b) { le_word(b, 4 * i) } else { be_word(b, 4 * i) },
    )
}

/// The words of the SPIR-V module in `bytes`. Calls
/// `wgpu::util::make_spirv_raw`, which checks for the magic number in
/// either byte order (it panics without one, or when the length is not a
/// multiple of four) and reads every four bytes as one word in the byte
/// order the magic number shows; `make_spirv` wraps the same words.
#[verifier::external_body]
fn spirv_words(bytes: &[u8]) -> (words: Vec<u32>)
    requires
        is_spirv_module(bytes@),
    ensures
        words@ == spec_spirv_words(bytes@),
{
    wgpu::util::make_spirv_raw(bytes).into_owned()
}

/// Source code a shader module is created from.
#[derive(Clone, Debug, PartialEq, Eq)]
pub enum ShaderModuleSource {
    Wgsl(String),
    SpirV(Vec<u32>),
}

/// A shader module to create and cache under `key`.
#[derive(Clone, Debug, PartialEq, Eq)]
pub struct ShaderModuleCreation {
    pub key: u64,
    pub label: &'static str,
    pub source: ShaderModuleSource,
}

/// The payload a package is compiled from: its WGSL slot when filled,
/// else its SPIR-V slot.
pub open spec fn chosen_payload(p: ShaderPackage) -> Option<ShaderPayload> {
    if p.variants.wgsl is Some { p.variants.wgsl } else { p.variants.spirv }
}

/// Whether compiling the package cannot panic: SPIR-V bytes of a whole
/// number of words start with the magic number.
pub open spec fn package_compilable(p: ShaderPackage) -> bool {
    match chosen_payload(p) {
        Some(ShaderPayload::SpirV(b)) => b@.len() % 4 == 0 ==> is_spirv_module(b@),
        _ => true,
    }
}

/// Whether asking for the module of `p` with the cached keys `keys`
/// cannot panic: a cached package is not compiled again.
pub open spec fn request_safe(keys: Set<u64>, p: ShaderPackage) -> bool {
    !keys.contains(p.payload_hash) ==> package_compilable(p)
}

/// Why a package that is not cached cannot be compiled, if it cannot:
/// it has no payload, its SPIR-V has a partial word, or its payload is in
/// a language the backend does not take.
pub open spec fn shader_fault(p: ShaderPackage) -> Option<Error> {
    match chosen_payload(p) {
        None => Some(recoverable_error(ErrorKind::InvalidDescriptor("shader_variant_missing"))),
        Some(ShaderPayload::Wgsl(_)) => None,
        Some(ShaderPayload::SpirV(b)) => if b@.len() % 4 != 0 {
            Some(recoverable_error(ErrorKind::InvalidDescriptor("shader_bytes_not_word_aligned")))
        } else {
            None
        },
        Some(ShaderPayload::Glsl(_)) => Some(fatal_error(ErrorKind::Unsupported("unsupported_shader_payload_for_wgpu"))),
    }
}

/// Whether `source` is what the package's chosen payload compiles to.
pub open spec fn compiles_to(p: ShaderPackage, source: ShaderModuleSource) -> bool {
    match (chosen_payload(p), source) {
        (Some(ShaderPayload::Wgsl(s)), ShaderModuleSource::Wgsl(t)) => t@ == s@,
        (Some(ShaderPayload::SpirV(b)), ShaderModuleSource::SpirV(w)) => w@ == spec_spirv_words(b@),
        _ => false,
    }
}

/// How a request for the module of `p` answers and changes the cached
/// keys: a cached key is answered with `None`; otherwise the package's
/// fault is returned, or its compiled source is planned and its key cached.
pub open spec fn shader_request(
    before: Set<u64>,
    after: Set<u64>,
    label: &'static str,
    p: ShaderPackage,
    r: Result<Option<ShaderModuleCreation>, Error>,
) -> bool {
    if before.contains(p.payload_hash) {
        r == Ok::<Option<ShaderModuleCreation>, Error>(None) && after == before
    } else {
        match shader_fault(p) {
            Some(e) => r == Err::<Option<ShaderModuleCreation>, Error>(e) && after == before,
            None => r matches Ok(Some(c)) && c.key == p.payload_hash && c.label == label
                && compiles_to(p, c.source) && after == before.insert(p.payload_hash),
        }
    }
}

/// The keys of the shader modules built so far.
pub struct ShaderModuleCache {
    pub keys: HashSet<u64>,
}

impl ShaderModuleCache {
    /// The cached keys.
    pub closed spec fn view(&self) -> Set<u64> {
        self.keys@
    }

    /// An empty cache.
    pub fn new() -> (c: ShaderModuleCache)
        ensures
            c.view() == Set::<u64>::empty(),
    {
        ShaderModuleCache { keys: HashSet::new() }
    }

    /// Whether a module is cached under `key`.
    pub fn contains(&self, key: u64) -> (b: bool)
        ensures
            b == self.view().contains(key),
    {
        self.keys.contains(&key)
    }

    /// Finds the module of a package, or plans its creation. A package is
    /// looked up by its payload hash; on a miss its chosen payload is
    /// compiled and the key is cached; `None` means the cached module is
    /// used.
    pub fn get_or_create_shader_module(&mut self, label: &'static str, package: &ShaderPackage)
        -> (r: Result<Option<ShaderModuleCreation>, Error>)
        requires
            request_safe(old(self).view(), *package),
        ensures
            shader_request(old(self).view(), final(self).view(), label, *package, r),
    {
        let key = package.payload_hash();
        if self.keys.contains(&key) {
            return Ok(None);
        }
        let payload = match &package.variants.wgsl {
            Some(p) => p,
            None => match &package.variants.spirv {
                Some(p) => p,
                None => {
                    return Err(Error::recoverable(ErrorKind::InvalidDescriptor("shader_variant_missing")));
                },
            },
        };
        let source = match payload {
            ShaderPayload::Wgsl(source) => ShaderModuleSource::Wgsl(source.clone()),
            ShaderPayload::SpirV(bytes) => {
                if bytes.len() % 4 != 0 {
                    return Err(Error::recoverable(ErrorKind::InvalidDescriptor("shader_bytes_not_word_aligned")));
                }
                ShaderModuleSource::SpirV(spirv_words(bytes.as_slice()))
            },
            ShaderPayload::Glsl(_) => {
                return Err(Error::fatal(ErrorKind::Unsupported("unsupported_shader_payload_for_wgpu")));
            },
        };
        self.keys.insert(key);
        Ok(Some(ShaderModuleCreation { key, label, source }))
    }
}

/// Asking twice for the module of the same package compiles it at most
/// once: once a request has succeeded, the next request for the package is
/// answered from the cache and changes nothing.
pub proof fn lemma_shader_cache_hit(
    s0: Set<u64>,
    s1: Set<u64>,
    s2: Set<u64>,
    label1: &'static str,
    label2: &'static str,
    p: ShaderPackage,
    r1: Result<Option<ShaderModuleCreation>, Error>,
    r2: Result<Option<ShaderModuleCreation>, Error>,
)
    requires
        shader_request(s0, s1, label1, p, r1),
        r1 is Ok,
        shader_request(s1, s2, label2, p, r2),
    ensures
        r2 == Ok::<Option<ShaderModuleCreation>, Error>(None),
        s2 == s1,
        s1.contains(p.payload_hash),
{
}

/// Whether `b` can be read as SPIR-V words.
pub fn is_spirv_bytes(b: &[u8]) -> (r: bool)
    ensures
        r == is_spirv_module(b@),
{
    if b.len() < 4 || b.len() % 4 != 0 {
        return false;
    }
    let le = b[0] == 0x03 && b[1] == 0x02 && b[2] == 0x23 && b[3] == 0x07;
    let be = b[0] == 0x07 && b[1] == 0x23 && b[2] == 0x02 && b[3] == 0x03;
    le || be
}

/// Whether the package cannot be compiled; see `shader_fault`.
pub fn package_has_fault(p: &ShaderPackage) -> (b: bool)
    ensures
        b == (shader_fault(*p) is Some),
{
    let payload = match &p.variants.wgsl {
        Some(x) => Some(x),
        None => match &p.variants.spirv {
            Some(x) => Some(x),
            None => None,
        },
    };
    match payload {
        None => true,
        Some(ShaderPayload::Wgsl(_)) => false,
        Some(ShaderPayload::SpirV(bytes)) => bytes.len() % 4 != 0,
        Some(ShaderPayload::Glsl(_)) => true,
    }
}

/// Whether compiling the package cannot panic; see `package_compilable`.
pub fn package_is_compilable(p: &ShaderPackage) -> (b: bool)
    ensures
        b == package_compilable(*p),
{
    let payload = match &p.variants.wgsl {
        Some(x) => Some(x),
        None => match &p.variants.spirv {
            Some(x) => Some(x),
            None => None,
        },
    };
    match payload {
        Some(ShaderPayload::SpirV(bytes)) => bytes.len() % 4 != 0 || is_spirv_bytes(bytes.as_slice()),
        _ => true,
    }
}

} // verus!
