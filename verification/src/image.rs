//! Guest images and how they are laid out in guest memory.
//!
//! A guest arrives either as a flat run of bytes or as a sectioned image. This
//! module decides which sections are copied into memory, which are passed over
//! and which make the load fail, and it builds the memory contents.

use vstd::prelude::*;

verus! {

/// What a section of an image holds.
#[derive(Clone, Copy, Debug, PartialEq, Eq, Structural)]
pub enum SectionKind {
    Unknown,
    Text,
    Data,
    ReadOnlyData,
    ReadOnlyDataWithRel,
    ReadOnlyString,
    UninitializedData,
    Tls,
    UninitializedTls,
    TlsVariables,
    OtherString,
    Other,
    Debug,
    DebugString,
    Linker,
    Note,
    Metadata,
}

/// Sections of these kinds are copied into guest memory: code, data and
/// read-only data.
pub open spec fn is_loaded(kind: SectionKind) -> bool {
    kind is Text || kind is Data || kind is ReadOnlyData
}

/// Sections of these kinds only inform tools and are passed over: metadata,
/// notes and string tables.
pub open spec fn is_skipped(kind: SectionKind) -> bool {
    kind is Metadata || kind is Note || kind is ReadOnlyString || kind is OtherString
}

impl SectionKind {
    /// Whether a section of this kind is copied into guest memory.
    pub fn loaded(self) -> (yes: bool)
        ensures
            yes == is_loaded(self),
    {
        match self {
            SectionKind::Text | SectionKind::Data | SectionKind::ReadOnlyData => true,
            _ => false,
        }
    }

    /// Whether a section of this kind is passed over without effect.
    pub fn skipped(self) -> (yes: bool)
        ensures
            yes == is_skipped(self),
    {
        match self {
            SectionKind::Metadata
            | SectionKind::Note
            | SectionKind::ReadOnlyString
            | SectionKind::OtherString => true,
            _ => false,
        }
    }
}

/// How the bytes of a section are stored in the image.
#[derive(Clone, Copy, Debug, PartialEq, Eq, Structural)]
pub enum Compression {
    /// Not compressed.
    Stored,
    /// Compressed in a way that is not recognised.
    Unknown,
    Zlib,
    Zstandard,
}

/// The stored bytes of a section.
#[derive(Debug, PartialEq, Eq)]
pub struct Payload {
    pub format: Compression,
    pub data: Vec<u8>,
    /// The length that the bytes have once unpacked.
    pub uncompressed_size: u64,
}

/// One section of a sectioned image.
#[derive(Debug, PartialEq, Eq)]
pub struct Section {
    /// The section's name, where the image lets it be resolved.
    pub name: Option<String>,
    pub kind: SectionKind,
    /// Where in guest memory the section belongs.
    pub address: u64,
    /// How many bytes of guest memory the section covers.
    pub size: u64,
    /// The stored bytes, or why the image does not yield them.
    pub payload: Result<Payload, String>,
}

/// A sectioned guest image.
#[derive(Debug, PartialEq, Eq)]
pub struct GuestImage {
    /// The address at which the guest starts to execute.
    pub entry: u64,
    pub sections: Vec<Section>,
}

/// Why one section stopped a load.
#[derive(Clone, Copy, Debug, PartialEq, Eq, Structural)]
pub enum LoadFault {
    /// The image does not yield the section's bytes.
    Unreadable,
    /// The stored bytes do not unpack.
    Unpack,
    /// The section lies outside guest memory, or its bytes do not have the
    /// length it declares.
    Misplaced,
    /// The section is of a kind that is neither loaded nor passed over.
    Unsupported,
}

/// A failed load: the section that stopped it, and why.
#[derive(Debug, PartialEq, Eq)]
pub struct LoadError {
    /// The position of the section among the image's sections.
    pub index: usize,
    pub fault: LoadFault,
    /// The kind of the section.
    pub kind: SectionKind,
    /// The name of the section, where it has one.
    pub name: Option<String>,
    /// What the reader of the image or the unpacker said; empty otherwise.
    pub reason: String,
}

/// `memory` with `bytes` written over it from position `at` on.
pub open spec fn place(memory: Seq<u8>, at: int, bytes: Seq<u8>) -> Seq<u8> {
    Seq::new(
        memory.len(),
        |i: int|
            if at <= i < at + bytes.len() {
                bytes[i - at]
            } else {
                memory[i]
            },
    )
}

/// Memory of `len` zero bytes.
pub open spec fn zeroed(len: nat) -> Seq<u8> {
    Seq::new(len, |i: int| 0u8)
}

/// Whether `size` bytes from `address` on lie inside memory of `len` bytes.
pub open spec fn fits(len: nat, address: u64, size: u64) -> bool {
    address + size <= len
}

/// Copies `bytes` into `memory` at `address`, where they form a section of
/// `size` bytes that lies inside the memory. Anything else leaves the memory
/// as it was and is answered with `false`.
pub fn place_section(memory: &mut Vec<u8>, address: u64, size: u64, bytes: &[u8]) -> (placed: bool)
    ensures
        placed == (fits(old(memory)@.len(), address, size) && bytes@.len() == size),
        placed ==> final(memory)@ == place(old(memory)@, address as int, bytes@),
        !placed ==> final(memory)@ == old(memory)@,
{
    let len: usize = memory.len();
    if address > len as u64 || size > len as u64 - address || bytes.len() as u64 != size {
        return false;
    }
    let start: usize = address as usize;
    let mut i: usize = 0;
    while i < bytes.len()
        invariant
            i <= bytes@.len(),
            start + bytes@.len() <= len,
            memory@.len() == len,
            old(memory)@.len() == len,
            memory@ == place(old(memory)@, start as int, bytes@.take(i as int)),
        decreases bytes@.len() - i,
    {
        memory.set(start + i, bytes[i]);
        i += 1;
    }
    true
}

/// The error type of the `object` crate's readers.
#[verifier::external_type_specification]
#[verifier::external_body]
pub struct ExReadError(object::read::Error);

/// What `object::read::CompressedData::decompress` yields for bytes stored in
/// `format` whose unpacked length is recorded as `uncompressed_size`, where it
/// yields anything.
pub uninterp spec fn inflated(format: Compression, data: Seq<u8>, uncompressed_size: u64) -> Option<Seq<u8>>;

/// Calls `object::read::CompressedData::decompress` on the given parts.
///
/// Bytes that are not compressed come back as they are. An unrecognised
/// format is an error. Zlib and Zstandard data may fail to unpack; where it
/// unpacks, the result has the recorded length and is what `inflated` names.
#[verifier::external_body]
fn decompress(format: Compression, data: &[u8], uncompressed_size: u64) -> (res: Result<
    Vec<u8>,
    object::read::Error,
>)
    ensures
        format is Stored ==> res is Ok && res->Ok_0@ == data@,
        format is Unknown ==> res is Err,
        (format is Zlib || format is Zstandard) ==> (res matches Ok(bytes) ==> bytes@.len()
            == uncompressed_size && inflated(format, data@, uncompressed_size) == Some(bytes@)),
{
    let format = match format {
        Compression::Stored => object::read::CompressionFormat::None,
        Compression::Unknown => object::read::CompressionFormat::Unknown,
        Compression::Zlib => object::read::CompressionFormat::Zlib,
        Compression::Zstandard => object::read::CompressionFormat::Zstandard,
    };
    let packed = object::read::CompressedData { format, data, uncompressed_size };
    packed.decompress().map(|bytes| bytes.into_owned())
}

/// The bytes that a payload stands for, `None` where it does not unpack.
pub open spec fn unpacked(payload: Payload) -> Option<Seq<u8>> {
    match payload.format {
        Compression::Stored => Some(payload.data@),
        Compression::Unknown => None,
        _ => inflated(payload.format, payload.data@, payload.uncompressed_size),
    }
}

/// Unpacks a payload. The error is what the unpacker said.
fn unpack(payload: &Payload) -> (res: Result<Vec<u8>, String>)
    ensures
        res matches Ok(bytes) ==> unpacked(*payload) == Some(bytes@),
        payload.format is Stored ==> res is Ok,
{
    match decompress(payload.format, payload.data.as_slice(), payload.uncompressed_size) {
        Ok(bytes) => Ok(bytes),
        Err(error) => Err(error.to_string()),
    }
}

/// What a section does to guest memory: the new contents, or why the load
/// stops at it.
pub open spec fn section_outcome(memory: Seq<u8>, section: Section) -> Result<Seq<u8>, LoadFault> {
    if is_loaded(section.kind) {
        match section.payload {
            Err(_) => Err(LoadFault::Unreadable),
            Ok(payload) => match unpacked(payload) {
                None => Err(LoadFault::Unpack),
                Some(bytes) => if fits(memory.len(), section.address, section.size) && bytes.len()
                    == section.size {
                    Ok(place(memory, section.address as int, bytes))
                } else {
                    Err(LoadFault::Misplaced)
                },
            },
        }
    } else if is_skipped(section.kind) {
        Ok(memory)
    } else {
        Err(LoadFault::Unsupported)
    }
}

/// Whether unpacking the section is left to a decoder, which may give up on
/// data that would unpack, for want of memory.
pub open spec fn needs_decoder(section: Section) -> bool {
    is_loaded(section.kind) && (section.payload matches Ok(payload) && (payload.format is Zlib
        || payload.format is Zstandard))
}

/// Whether the error says of the section what is so: its kind and name, and
/// where the image did not yield the section's bytes, the reason it gave.
pub open spec fn tells_of(error: LoadError, section: Section) -> bool {
    &&& error.kind == section.kind
    &&& error.name == section.name
    &&& error.fault is Unreadable ==> section.payload == Err::<Payload, String>(error.reason)
    &&& (error.fault is Misplaced || error.fault is Unsupported) ==> error.reason@ == Seq::<
        char,
    >::empty()
}

/// A copy of a section's name.
fn copy_name(name: &Option<String>) -> (copy: Option<String>)
    ensures
        copy == *name,
{
    match name {
        Some(text) => Some(text.clone()),
        None => None,
    }
}

/// Applies one section to guest memory.
///
/// A section of a loaded kind is unpacked and copied to its address; one of a
/// skipped kind changes nothing; any other kind is an error that carries the
/// kind and the name. On an error the memory is as it was. The outcome is
/// that of `section_outcome`, but for a decoder that gives up.
pub fn load_section(memory: &mut Vec<u8>, index: usize, section: &Section) -> (res: Result<
    (),
    LoadError,
>)
    ensures
        match res {
            Ok(()) => section_outcome(old(memory)@, *section) == Ok::<Seq<u8>, LoadFault>(
                final(memory)@,
            ),
            Err(error) => {
                &&& final(memory)@ == old(memory)@
                &&& error.index == index
                &&& tells_of(error, *section)
                &&& section_outcome(old(memory)@, *section) == Err::<Seq<u8>, LoadFault>(
                    error.fault,
                ) || (error.fault is Unpack && needs_decoder(*section))
            },
        },
{
    let kind = section.kind;
    if kind.loaded() {
        match &section.payload {
            Err(reason) => Err(
                LoadError {
                    index,
                    fault: LoadFault::Unreadable,
                    kind,
                    name: copy_name(&section.name),
                    reason: reason.clone(),
                },
            ),
            Ok(payload) => match unpack(payload) {
                Err(reason) => Err(
                    LoadError {
                        index,
                        fault: LoadFault::Unpack,
                        kind,
                        name: copy_name(&section.name),
                        reason,
                    },
                ),
                Ok(bytes) => {
                    if place_section(memory, section.address, section.size, bytes.as_slice()) {
                        Ok(())
                    } else {
                        Err(
                            LoadError {
                                index,
                                fault: LoadFault::Misplaced,
                                kind,
                                name: copy_name(&section.name),
                                reason: String::new(),
                            },
                        )
                    }
                },
            },
        }
    } else if kind.skipped() {
        Ok(())
    } else {
        Err(
            LoadError {
                index,
                fault: LoadFault::Unsupported,
                kind,
                name: copy_name(&section.name),
                reason: String::new(),
            },
        )
    }
}

/// What a run of sections does to guest memory, taken in order: the final
/// contents, or the position of the first section that stops the load, and
/// why it does.
pub open spec fn load_outcome(memory: Seq<u8>, sections: Seq<Section>) -> Result<
    Seq<u8>,
    (int, LoadFault),
>
    decreases sections.len(),
{
    if sections.len() == 0 {
        Ok(memory)
    } else {
        match load_outcome(memory, sections.drop_last()) {
            Err(stop) => Err(stop),
            Ok(before) => match section_outcome(before, sections.last()) {
                Ok(after) => Ok(after),
                Err(fault) => Err((sections.len() - 1, fault)),
            },
        }
    }
}

/// Whether a load of the sections into `memory` may end with `error`: the
/// error names the first section that stops the load, and why it does; or
/// it names a section that all earlier ones let the load reach, and whose
/// decoder gave up.
pub open spec fn load_fails_with(memory: Seq<u8>, sections: Seq<Section>, error: LoadError) -> bool {
    &&& error.index < sections.len()
    &&& tells_of(error, sections[error.index as int])
    &&& load_outcome(memory, sections) == Err::<Seq<u8>, (int, LoadFault)>(
        (error.index as int, error.fault),
    ) || {
        &&& error.fault is Unpack
        &&& needs_decoder(sections[error.index as int])
        &&& load_outcome(memory, sections.take(error.index as int)) is Ok
    }
}

/// A load that stops within the first `n` sections stops there whatever
/// follows them.
pub proof fn lemma_load_stops_early(memory: Seq<u8>, sections: Seq<Section>, n: int)
    requires
        0 <= n <= sections.len(),
        load_outcome(memory, sections.take(n)) is Err,
    ensures
        load_outcome(memory, sections) == load_outcome(memory, sections.take(n)),
    decreases sections.len() - n,
{
    if n == sections.len() {
        assert(sections.take(n) == sections);
    } else {
        assert(sections.take(n + 1).drop_last() == sections.take(n));
        lemma_load_stops_early(memory, sections, n + 1);
    }
}

/// Memory never changes its size under a load.
pub proof fn lemma_load_keeps_size(memory: Seq<u8>, sections: Seq<Section>)
    ensures
        load_outcome(memory, sections) matches Ok(after) ==> after.len() == memory.len(),
    decreases sections.len(),
{
    if sections.len() > 0 {
        lemma_load_keeps_size(memory, sections.drop_last());
    }
}

/// Builds the contents of a guest's memory from a sectioned image.
///
/// The memory starts as `mem_size` zero bytes, and the sections are applied
/// in order as `load_section` does. The first section that fails ends the
/// load with its error. The outcome is that of `load_outcome`, but for a
/// decoder that gives up on a section that all earlier ones let through.
pub fn load_image(mem_size: usize, image: &GuestImage) -> (res: Result<Vec<u8>, LoadError>)
    ensures
        match res {
            Ok(memory) => load_outcome(zeroed(mem_size as nat), image.sections@) == Ok::<
                Seq<u8>,
                (int, LoadFault),
            >(memory@),
            Err(error) => load_fails_with(zeroed(mem_size as nat), image.sections@, error),
        },
{
    let mut memory: Vec<u8> = vec![0u8; mem_size];
    let ghost start = memory@;
    let mut i: usize = 0;
    while i < image.sections.len()
        invariant
            i <= image.sections@.len(),
            start == zeroed(mem_size as nat),
            load_outcome(start, image.sections@.take(i as int)) == Ok::<Seq<u8>, (int, LoadFault)>(
                memory@,
            ),
        decreases image.sections@.len() - i,
    {
        let ghost before = memory@;
        assert(image.sections@.take(i + 1).drop_last() == image.sections@.take(i as int));
        match load_section(&mut memory, i, &image.sections[i]) {
            Ok(()) => {},
            Err(error) => {
                proof {
                    if section_outcome(before, image.sections@[i as int]) == Err::<
                        Seq<u8>,
                        LoadFault,
                    >(error.fault) {
                        lemma_load_stops_early(start, image.sections@, i + 1);
                    }
                }
                return Err(error);
            },
        }
        i += 1;
    }
    assert(image.sections@.take(i as int) == image.sections@);
    Ok(memory)
}

/// Builds the contents of a guest's memory from a flat program: `mem_size`
/// zero bytes with the program copied to the start. A program longer than the
/// memory has no place in it, and the answer is `None`.
pub fn load_flat(mem_size: usize, code: &[u8]) -> (res: Option<Vec<u8>>)
    ensures
        res is Some <==> code@.len() <= mem_size,
        res matches Some(memory) ==> memory@ == place(zeroed(mem_size as nat), 0, code@),
{
    if code.len() > mem_size {
        return None;
    }
    let mut memory: Vec<u8> = vec![0u8; mem_size];
    if place_section(&mut memory, 0, code.len() as u64, code) {
        Some(memory)
    } else {
        None
    }
}

/// A section of a skipped kind, put anywhere among the sections of an image,
/// changes nothing in the memory that a load builds. Where the load fails, it
/// fails for the same reason at the same section, whose position moves by one
/// if the new section stands before it.
pub proof fn lemma_skipped_section_is_inert(
    memory: Seq<u8>,
    sections: Seq<Section>,
    at: int,
    extra: Section,
)
    requires
        0 <= at <= sections.len(),
        is_skipped(extra.kind),
    ensures
        match load_outcome(memory, sections) {
            Ok(contents) => load_outcome(memory, sections.insert(at, extra)) == Ok::<
                Seq<u8>,
                (int, LoadFault),
            >(contents),
            Err((index, fault)) => load_outcome(memory, sections.insert(at, extra)) == Err::<
                Seq<u8>,
                (int, LoadFault),
            >(
                (
                    if index < at {
                        index
                    } else {
                        index + 1
                    },
                    fault,
                ),
            ),
        },
    decreases sections.len(),
{
    let longer = sections.insert(at, extra);
    lemma_load_stop_is_in_range(memory, sections);
    if at == sections.len() {
        assert(longer.drop_last() == sections);
    } else {
        assert(longer.drop_last() == sections.drop_last().insert(at, extra));
        lemma_load_stop_is_in_range(memory, sections.drop_last());
        lemma_skipped_section_is_inert(memory, sections.drop_last(), at, extra);
    }
}

/// The section at which a load stops is one of the sections.
pub proof fn lemma_load_stop_is_in_range(memory: Seq<u8>, sections: Seq<Section>)
    ensures
        load_outcome(memory, sections) matches Err((index, _)) ==> 0 <= index < sections.len(),
    decreases sections.len(),
{
    if sections.len() > 0 {
        lemma_load_stop_is_in_range(memory, sections.drop_last());
    }
}

/// A section of a kind that is neither loaded nor skipped stops the load at
/// its position, unless an earlier section has stopped it already.
pub proof fn lemma_unsupported_kind_stops_load(memory: Seq<u8>, sections: Seq<Section>, at: int)
    requires
        0 <= at < sections.len(),
        !is_loaded(sections[at].kind),
        !is_skipped(sections[at].kind),
    ensures
        load_outcome(memory, sections) matches Err((index, fault)) && (index < at || (index == at
            && fault is Unsupported)),
{
    let upto = sections.take(at + 1);
    assert(upto.drop_last() == sections.take(at));
    lemma_load_stop_is_in_range(memory, sections.take(at));
    lemma_load_stops_early(memory, sections, at + 1);
}

} // verus!
