//! Reading and writing part of a sector: the copy between a whole sector and a caller's buffer
//! at an offset.
use vstd::prelude::*;
use crate::errno::Errno;
use crate::bytes::copy_bytes;

verus! {

/// How many bytes a transfer at `offset` moves: as many as the buffer holds, at most to the
/// end of the sector.
pub open spec fn transfer_len(buf_len: nat, sector_size: nat, offset: nat) -> nat {
    if buf_len < sector_size - offset { buf_len } else { (sector_size - offset) as nat }
}

/// Reads the part of `sector` from `offset` into the front of `buf`: as many bytes as `buf`
/// holds, at most to the end of the sector; an offset past the sector is `EINVAL`.
pub fn read_from_sector(sector: &[u8], buf: &mut [u8], offset: usize) -> (r: Result<(), Errno>)
    ensures
        offset >= sector@.len() ==> r == Err::<(), Errno>(Errno::EINVAL) && final(buf)@ == old(buf)@,
        offset < sector@.len() ==> r is Ok && ({
            let n = transfer_len(old(buf)@.len(), sector@.len(), offset as nat) as int;
            final(buf)@ == sector@.subrange(offset as int, offset + n) + old(buf)@.subrange(n, old(buf)@.len() as int)
        }),
{
    if offset >= sector.len() {
        return Err(Errno::EINVAL);
    }
    let room = sector.len() - offset;
    let len = if buf.len() < room { buf.len() } else { room };
    copy_bytes(buf, 0, sector, offset, len);
    assert(final(buf)@ =~= sector@.subrange(offset as int, offset + len) + old(buf)@.subrange(len as int, old(buf)@.len() as int));
    Ok(())
}

/// Writes the front of `buf` into `sector` from `offset`: as many bytes as `buf` holds, at most
/// to the end of the sector; the rest of the sector is kept. An offset past the sector is
/// `EINVAL`.
pub fn write_into_sector(sector: &mut [u8], buf: &[u8], offset: usize) -> (r: Result<(), Errno>)
    ensures
        offset >= old(sector)@.len() ==> r == Err::<(), Errno>(Errno::EINVAL) && final(sector)@ == old(sector)@,
        offset < old(sector)@.len() ==> r is Ok && ({
            let n = transfer_len(buf@.len(), old(sector)@.len(), offset as nat) as int;
            final(sector)@ == old(sector)@.subrange(0, offset as int) + buf@.subrange(0, n)
                + old(sector)@.subrange(offset + n, old(sector)@.len() as int)
        }),
{
    if offset >= sector.len() {
        return Err(Errno::EINVAL);
    }
    let room = sector.len() - offset;
    let len = if buf.len() < room { buf.len() } else { room };
    copy_bytes(sector, offset, buf, 0, len);
    Ok(())
}

/// Reading back part of a sector at the offset it was written at gives what was written.
pub proof fn lemma_partial_write_then_read(sector: Seq<u8>, buf: Seq<u8>, offset: nat)
    requires
        offset < sector.len(),
        buf.len() <= sector.len() - offset,
    ensures
        ({
            let written = sector.subrange(0, offset as int) + buf + sector.subrange((offset + buf.len()) as int, sector.len() as int);
            written.subrange(offset as int, (offset + buf.len()) as int) == buf
        }),
{
    let written = sector.subrange(0, offset as int) + buf + sector.subrange((offset + buf.len()) as int, sector.len() as int);
    assert(written.subrange(offset as int, (offset + buf.len()) as int) =~= buf);
}

} // verus!
