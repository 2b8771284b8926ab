//! Guest memory: one anonymous memory mapping per instance, with every access
//! checked against its length.
use vstd::prelude::*;

use memmap2::MmapMut;

use crate::state::BridgeError;

verus! {

#[verifier::external_type_specification]
#[verifier::external_body]
pub struct ExMmapMut(memmap2::MmapMut);

/// The bytes that a mapping holds, in address order.
pub uninterp spec fn mapped_bytes(m: MmapMut) -> Seq<u8>;

/// `mem` with `data` written over it from `start` on.
pub open spec fn splice(mem: Seq<u8>, start: int, data: Seq<u8>) -> Seq<u8> {
    mem.subrange(0, start) + data + mem.subrange(start + data.len(), mem.len() as int)
}

/// True when `size` bytes from `address` on lie inside a buffer of `len` bytes.
pub open spec fn in_bounds(address: int, size: int, len: int) -> bool {
    address + size <= len
}

/// Relies on memmap2's `MmapMut::map_anon`: a mapping that it returns is
/// `len` bytes long.
#[verifier::external_body]
fn map_anonymous(len: usize) -> (r: Option<MmapMut>)
    ensures
        r matches Some(m) ==> mapped_bytes(m).len() == len,
{
    MmapMut::map_anon(len).ok()
}

/// Relies on memmap2's `MmapMut::len`: the length of the mapping in bytes.
#[verifier::external_body]
fn mapping_len(m: &MmapMut) -> (r: usize)
    ensures
        r == mapped_bytes(*m).len(),
{
    m.len()
}

/// Relies on memmap2's `Deref` of `MmapMut` to its bytes: copies out the bytes
/// from `start` up to `end`.
#[verifier::external_body]
fn mapping_copy_out(m: &MmapMut, start: usize, end: usize) -> (r: Vec<u8>)
    requires
        start <= end <= mapped_bytes(*m).len(),
    ensures
        r@ == mapped_bytes(*m).subrange(start as int, end as int),
{
    m[start..end].to_vec()
}

/// Relies on memmap2's `DerefMut` of `MmapMut` to its bytes: copies `data`
/// over the bytes from `start` up to `end`.
#[verifier::external_body]
fn mapping_copy_in(m: &mut MmapMut, start: usize, end: usize, data: &[u8])
    requires
        start <= end <= mapped_bytes(*old(m)).len(),
        end - start == data@.len(),
    ensures
        mapped_bytes(*final(m)) == splice(mapped_bytes(*old(m)), start as int, data@),
{
    m[start..end].copy_from_slice(data)
}

/// A fixed-size guest memory buffer.
pub struct GuestMemory {
    map: MmapMut,
}

impl View for GuestMemory {
    type V = Seq<u8>;

    closed spec fn view(&self) -> Seq<u8> {
        mapped_bytes(self.map)
    }
}

impl GuestMemory {
    /// Allocates `size` bytes of guest memory; `OutOfMemory` when the mapping
    /// cannot be made, which is always the case when `size` exceeds the
    /// address space.
    pub fn new(size: u64) -> (r: Result<GuestMemory, BridgeError>)
        ensures
            size > usize::MAX ==> r is Err,
            r matches Ok(m) ==> m@.len() == size,
            r matches Err(e) ==> e == BridgeError::OutOfMemory,
    {
        if size > usize::MAX as u64 {
            return Err(BridgeError::OutOfMemory);
        }
        match map_anonymous(size as usize) {
            Some(map) => Ok(GuestMemory { map }),
            None => Err(BridgeError::OutOfMemory),
        }
    }

    /// Length of the buffer in bytes.
    pub fn len(&self) -> (r: usize)
        ensures
            r == self@.len(),
    {
        mapping_len(&self.map)
    }

    /// The `size` bytes from `address` on; `InvalidParameter`, and nothing
    /// copied, when they do not all lie inside the buffer.
    pub fn read(&self, address: u64, size: u64) -> (r: Result<Vec<u8>, BridgeError>)
        ensures
            r is Ok <==> in_bounds(address as int, size as int, self@.len() as int),
            r matches Ok(v) ==> v@ == self@.subrange(address as int, address + size),
            r matches Err(e) ==> e == BridgeError::InvalidParameter,
    {
        let len = self.len();
        if address > len as u64 || size > len as u64 - address {
            return Err(BridgeError::InvalidParameter);
        }
        let start = address as usize;
        let end = start + size as usize;
        Ok(mapping_copy_out(&self.map, start, end))
    }

    /// Writes `data` from `address` on; `InvalidParameter`, and the buffer
    /// unchanged, when it does not fit inside the buffer.
    pub fn write(&mut self, address: u64, data: &[u8]) -> (r: Result<(), BridgeError>)
        ensures
            r is Ok <==> in_bounds(address as int, data@.len() as int, old(self)@.len() as int),
            r is Ok ==> final(self)@ == splice(old(self)@, address as int, data@),
            r matches Err(e) ==> e == BridgeError::InvalidParameter && final(self)@ == old(self)@,
    {
        let len = self.len();
        let size = data.len();
        if address > len as u64 || size as u64 > len as u64 - address {
            return Err(BridgeError::InvalidParameter);
        }
        let start = address as usize;
        let end = start + size;
        mapping_copy_in(&mut self.map, start, end, data);
        Ok(())
    }
}

/// Reading back the bytes just written over a range gives those bytes.
pub proof fn lemma_write_then_read(mem: Seq<u8>, address: int, data: Seq<u8>)
    requires
        0 <= address,
        in_bounds(address, data.len() as int, mem.len() as int),
    ensures
        splice(mem, address, data).subrange(address, address + data.len()) == data,
        splice(mem, address, data).len() == mem.len(),
{
    assert(splice(mem, address, data).subrange(address, address + data.len()) =~= data);
}

} // verus!
