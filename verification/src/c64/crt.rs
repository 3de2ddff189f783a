// CRT cartridge images: the header, the CHIP packets and loading them into memory
use vstd::prelude::*;
use byteorder::{BigEndian, ByteOrder};
use crate::c64::memory::{Memory, MemoryView};

verus! {

/// Why a cartridge image was refused.
#[derive(PartialEq, Eq, Structural, Clone, Copy, Debug)]
pub enum CrtError {
    /// The image does not start with "C64 CARTRIDGE   ".
    InvalidSignature,
    /// The hardware type is not 0 (normal cartridge).
    UnsupportedType,
    /// A CHIP packet has a chip type other than ROM, RAM or Flash.
    InvalidChipType,
    /// The image ends inside a header field.
    UnexpectedEof,
}

/// The kind of memory a CHIP packet holds.
#[allow(non_camel_case_types)]
#[derive(PartialEq, Eq, Structural, Clone, Copy, Debug)]
pub enum ChipType {
    ROM,
    RAM,
    Flash,
}

/// The cartridge header.
#[derive(Debug)]
pub struct Header {
    pub signature: [u8; 16],
    pub header_len: u32,
    pub version: [u8; 2],
    pub hw_type: u16,
    pub exrom: u8,
    pub game: u8,
    pub name: [u8; 32],
}

/// One CHIP packet: a block of ROM or RAM contents and where it loads.
#[derive(Debug)]
pub struct Chip {
    pub signature: [u8; 4],
    pub length: u32,
    pub chip_type: ChipType,
    pub bank_number: u16,
    pub load_addr: u16,
    pub data_size: u16,
    pub data: Vec<u8>,
}

/// A cartridge image.
#[derive(Debug)]
pub struct Crt {
    pub header: Header,
    pub chips: Vec<Chip>,
}

/// What a CHIP packet holds, as values.
pub struct ChipView {
    pub signature: Seq<u8>,
    pub length: u32,
    pub chip_type: ChipType,
    pub bank_number: u16,
    pub load_addr: u16,
    pub data_size: u16,
    pub data: Seq<u8>,
}

/// What a cartridge image holds, as values.
pub struct CrtView {
    pub signature: Seq<u8>,
    pub header_len: u32,
    pub version: Seq<u8>,
    pub hw_type: u16,
    pub exrom: u8,
    pub game: u8,
    pub name: Seq<u8>,
    pub chips: Seq<ChipView>,
}

/// The byte at `i`, or 0 past the end (a short read leaves the buffer zeroed).
pub open spec fn byte_at(d: Seq<u8>, i: int) -> u8 {
    if 0 <= i < d.len() { d[i] } else { 0 }
}

/// The `n` bytes from `i` on, zero-padded past the end.
pub open spec fn bytes_at(d: Seq<u8>, i: int, n: nat) -> Seq<u8> {
    Seq::new(n, |k: int| byte_at(d, i + k))
}

/// A big endian 16-bit number at `i`.
pub open spec fn be16(d: Seq<u8>, i: int) -> u16 {
    (d[i] as int * 0x100 + d[i + 1] as int) as u16
}

/// A big endian 32-bit number at `i`.
pub open spec fn be32(d: Seq<u8>, i: int) -> u32 {
    (d[i] as int * 0x1000000 + d[i + 1] as int * 0x10000 + d[i + 2] as int * 0x100 + d[i + 3] as int) as u32
}

/// The signature of a cartridge image.
pub open spec fn crt_signature() -> Seq<u8> {
    seq![0x43u8, 0x36, 0x34, 0x20, 0x43, 0x41, 0x52, 0x54, 0x52, 0x49, 0x44, 0x47, 0x45, 0x20, 0x20, 0x20]
}

/// The signature of a CHIP packet.
pub open spec fn chip_signature() -> Seq<u8> {
    seq![0x43u8, 0x48, 0x49, 0x50]
}

/// The chip type of a number.
pub open spec fn chip_type_of(t: u16) -> Option<ChipType> {
    if t == 0 { Some(ChipType::ROM) } else if t == 1 { Some(ChipType::RAM) } else if t == 2 { Some(ChipType::Flash) } else { None }
}

/// The CHIP packets from position `pos` on: packets follow each other until a position
/// that does not hold "CHIP". A packet header is 16 bytes (signature, length, chip type,
/// bank, load address, data size); its data follows, zero-padded where the image ends.
pub open spec fn parse_chips(d: Seq<u8>, pos: int) -> Result<Seq<ChipView>, CrtError>
    decreases d.len() - pos,
{
    if pos < 0 || bytes_at(d, pos, 4) != chip_signature() {
        Ok(Seq::empty())
    } else if pos + 10 > d.len() {
        Err(CrtError::UnexpectedEof)
    } else if chip_type_of(be16(d, pos + 8)) is None {
        Err(CrtError::InvalidChipType)
    } else if pos + 16 > d.len() {
        Err(CrtError::UnexpectedEof)
    } else {
        let size = be16(d, pos + 14);
        let chip = ChipView {
            signature: bytes_at(d, pos, 4),
            length: be32(d, pos + 4),
            chip_type: chip_type_of(be16(d, pos + 8))->0,
            bank_number: be16(d, pos + 10),
            load_addr: be16(d, pos + 12),
            data_size: size,
            data: bytes_at(d, pos + 16, size as nat),
        };
        let next = pos + 16 + size;
        if next >= d.len() {
            Ok(seq![chip])
        } else {
            match parse_chips(d, next) {
                Ok(rest) => Ok(seq![chip] + rest),
                Err(e) => Err(e),
            }
        }
    }
}

/// A cartridge image: the signature, the header length, version, hardware type (only
/// type 0 is supported), EXROM and GAME lines, the name at $20 and the CHIP packets from
/// the end of the header on.
pub open spec fn parse_crt(d: Seq<u8>) -> Result<CrtView, CrtError> {
    if bytes_at(d, 0, 16) != crt_signature() {
        Err(CrtError::InvalidSignature)
    } else if d.len() < 20 {
        Err(CrtError::UnexpectedEof)
    } else if d.len() < 24 {
        Err(CrtError::UnexpectedEof)
    } else if be16(d, 22) != 0 {
        Err(CrtError::UnsupportedType)
    } else if d.len() < 26 {
        Err(CrtError::UnexpectedEof)
    } else {
        match parse_chips(d, be32(d, 16) as int) {
            Ok(chips) => Ok(CrtView {
                signature: bytes_at(d, 0, 16),
                header_len: be32(d, 16),
                version: bytes_at(d, 20, 2),
                hw_type: be16(d, 22),
                exrom: d[24],
                game: d[25],
                name: bytes_at(d, 0x20, 32),
                chips,
            }),
            Err(e) => Err(e),
        }
    }
}

/// Reads a big endian 16-bit number: calls `byteorder::BigEndian::read_u16` on the bytes from
/// `pos` on. Claimed of it: the result is `d[pos]` * 256 + `d[pos + 1]` (it panics on fewer
/// than two bytes, which the precondition rules out).
#[verifier::external_body]
fn read_be_u16(d: &[u8], pos: usize) -> (r: u16)
    requires
        pos + 2 <= d@.len(),
    ensures
        r == be16(d@, pos as int),
{
    BigEndian::read_u16(&d[pos..])
}

/// Reads a big endian 32-bit number: calls `byteorder::BigEndian::read_u32` on the bytes from
/// `pos` on. Claimed of it: the result is the four bytes from `pos` read high byte first (it
/// panics on fewer than four bytes, which the precondition rules out).
#[verifier::external_body]
fn read_be_u32(d: &[u8], pos: usize) -> (r: u32)
    requires
        pos + 4 <= d@.len(),
    ensures
        r == be32(d@, pos as int),
{
    BigEndian::read_u32(&d[pos..])
}

/// The byte at `i`, or 0 past the end.
fn get_byte(d: &[u8], i: u128) -> (b: u8)
    ensures
        b == byte_at(d@, i as int),
{
    if i < d.len() as u128 {
        d[i as usize]
    } else {
        0
    }
}

impl Chip {
    pub open spec fn view(&self) -> ChipView {
        ChipView {
            signature: self.signature@,
            length: self.length,
            chip_type: self.chip_type,
            bank_number: self.bank_number,
            load_addr: self.load_addr,
            data_size: self.data_size,
            data: self.data@,
        }
    }
}

impl Crt {
    pub open spec fn view(&self) -> CrtView {
        CrtView {
            signature: self.header.signature@,
            header_len: self.header.header_len,
            version: self.header.version@,
            hw_type: self.header.hw_type,
            exrom: self.header.exrom,
            game: self.header.game,
            name: self.header.name@,
            chips: self.chips@.map_values(|c: Chip| c.view()),
        }
    }

    /// Reads a cartridge image.
    pub fn from_bytes(d: &[u8]) -> (r: Result<Crt, CrtError>)
        ensures
            match parse_crt(d@) {
                Ok(v) => r matches Ok(crt) && crt.view() == v,
                Err(e) => r == Err::<Crt, CrtError>(e),
            },
    {
        let mut signature = [0u8; 16];
        let mut i: usize = 0;
        while i < 16
            invariant
                i <= 16,
                forall|k: int| 0 <= k < i ==> signature[k] == byte_at(d@, k),
            decreases 16 - i,
        {
            signature[i] = get_byte(d, i as u128);
            i = i + 1;
        }
        assert(signature@ =~= bytes_at(d@, 0, 16));
        if !is_crt_signature(&signature) {
            return Err(CrtError::InvalidSignature);
        }
        if d.len() < 24 {
            return Err(CrtError::UnexpectedEof);
        }
        let header_len = read_be_u32(d, 16);
        let version = [d[20], d[21]];
        let hw_type = read_be_u16(d, 22);
        if hw_type != 0 {
            return Err(CrtError::UnsupportedType);
        }
        if d.len() < 26 {
            return Err(CrtError::UnexpectedEof);
        }
        let exrom = d[24];
        let game = d[25];
        let mut name = [0u8; 32];
        let mut j: usize = 0;
        while j < 32
            invariant
                j <= 32,
                forall|k: int| 0 <= k < j ==> name[k] == byte_at(d@, 0x20 + k),
            decreases 32 - j,
        {
            name[j] = get_byte(d, 0x20 + j as u128);
            j = j + 1;
        }
        assert(name@ =~= bytes_at(d@, 0x20, 32));
        assert(version@ =~= bytes_at(d@, 20, 2));
        let chips = match read_chips(d, header_len as u128) {
            Ok(c) => c,
            Err(e) => {
                return Err(e);
            },
        };
        let crt = Crt {
            header: Header { signature, header_len, version, hw_type, exrom, game, name },
            chips,
        };
        Ok(crt)
    }

    /// Writes the data of every CHIP packet to memory from its load address on (the
    /// address wraps around at the end of memory).
    pub fn load_into_memory(&self, memory: &mut Memory)
        requires
            old(memory).wf(),
        ensures
            final(memory).wf(),
            final(memory)@ == chips_written(old(memory)@, self.view().chips),
    {
        let mut i: usize = 0;
        let ghost m0 = memory@;
        let ghost cs = self.view().chips;
        while i < self.chips.len()
            invariant
                i <= self.chips@.len(),
                cs == self.view().chips,
                memory.wf(),
                memory@ == chips_written(m0, cs.take(i as int)),
            decreases self.chips@.len() - i,
        {
            let chip = &self.chips[i];
            let ghost before = memory@;
            write_bytes(memory, chip.load_addr, chip.data.as_slice(), 0);
            assert(chip.data@.subrange(0, chip.data@.len() as int) =~= chip.data@);
            proof {
                lemma_chips_written_push(m0, cs, i as int);
            }
            i = i + 1;
        }
        assert(cs.take(self.chips@.len() as int) =~= cs);
    }
}

/// Whether 16 bytes are the cartridge signature.
fn is_crt_signature(s: &[u8; 16]) -> (b: bool)
    ensures
        b == (s@ == crt_signature()),
{
    let expected: [u8; 16] = [0x43, 0x36, 0x34, 0x20, 0x43, 0x41, 0x52, 0x54, 0x52, 0x49, 0x44, 0x47, 0x45, 0x20, 0x20, 0x20];
    let mut i: usize = 0;
    while i < 16
        invariant
            i <= 16,
            expected@ == crt_signature(),
            forall|k: int| 0 <= k < i ==> s[k] == expected[k],
        decreases 16 - i,
    {
        if s[i] != expected[i] {
            assert(s@[i as int] != crt_signature()[i as int]);
            return false;
        }
        i = i + 1;
    }
    assert(s@ =~= crt_signature());
    true
}

/// The memory after writing `data` from `base` on.
pub open spec fn bytes_written(m: MemoryView, base: u16, data: Seq<u8>) -> MemoryView
    decreases data.len(),
{
    if data.len() == 0 {
        m
    } else {
        let k = data.len() - 1;
        bytes_written(m, base, data.take(k)).after_write(((base + k) % 0x10000) as u16, data[k])
    }
}

/// The memory after writing the data of each chip, in order.
pub open spec fn chips_written(m: MemoryView, chips: Seq<ChipView>) -> MemoryView
    decreases chips.len(),
{
    if chips.len() == 0 {
        m
    } else {
        let k = chips.len() - 1;
        let c = chips[k];
        bytes_written(chips_written(m, chips.take(k)), c.load_addr, c.data)
    }
}

proof fn lemma_chips_written_push(m: MemoryView, cs: Seq<ChipView>, i: int)
    requires
        0 <= i < cs.len(),
    ensures
        chips_written(m, cs.take(i + 1)) == bytes_written(chips_written(m, cs.take(i)), cs[i].load_addr, cs[i].data),
{
    assert(cs.take(i + 1).take(i) =~= cs.take(i));
}

/// Writes `data[from..]` to memory from `base` on.
pub fn write_bytes(memory: &mut Memory, base: u16, data: &[u8], from: usize)
    requires
        old(memory).wf(),
        from <= data@.len(),
    ensures
        final(memory).wf(),
        final(memory)@ == bytes_written(old(memory)@, base, data@.subrange(from as int, data@.len() as int)),
{
    let ghost m0 = memory@;
    let ghost tail = data@.subrange(from as int, data@.len() as int);
    let mut k: usize = from;
    while k < data.len()
        invariant
            from <= k <= data@.len(),
            tail == data@.subrange(from as int, data@.len() as int),
            memory.wf(),
            memory@ == bytes_written(m0, base, tail.take(k - from)),
        decreases data@.len() - k,
    {
        let addr = base.wrapping_add(((k - from) % 0x10000) as u16);
        memory.write_byte(addr, data[k]);
        assert(tail.take(k - from + 1).take(k - from) =~= tail.take(k - from));
        assert(tail.take(k - from + 1)[k - from] == data@[k as int]);
        k = k + 1;
    }
    assert(tail.take(data@.len() - from) =~= tail);
}

/// Reads the CHIP packets from `start` on (see `parse_chips`).
fn read_chips(d: &[u8], start: u128) -> (r: Result<Vec<Chip>, CrtError>)
    requires
        start < 0x1_0000_0000,
    ensures
        match parse_chips(d@, start as int) {
            Ok(v) => r matches Ok(chips) && chips@.map_values(|c: Chip| c.view()) == v,
            Err(e) => r == Err::<Vec<Chip>, CrtError>(e),
        },
{
    let mut chips: Vec<Chip> = Vec::new();
    let mut pos: u128 = start;
    let len = d.len() as u128;
    loop
        invariant
            len == d@.len(),
            len <= usize::MAX,
            pos >= start,
            start < 0x1_0000_0000,
            pos <= start + len,
            parse_chips(d@, start as int) == match parse_chips(d@, pos as int) {
                Ok(rest) => Ok(chips@.map_values(|c: Chip| c.view()) + rest),
                Err(e) => Err::<Seq<ChipView>, CrtError>(e),
            },
        decreases d@.len() + 1 - pos,
    {
        let ghost p = pos as int;
        let s0 = get_byte(d, pos);
        let s1 = get_byte(d, pos + 1);
        let s2 = get_byte(d, pos + 2);
        let s3 = get_byte(d, pos + 3);
        let sig = [s0, s1, s2, s3];
        assert(bytes_at(d@, p, 4) =~= seq![s0, s1, s2, s3]);
        assert(sig@ =~= seq![s0, s1, s2, s3]);
        if !(s0 == 0x43 && s1 == 0x48 && s2 == 0x49 && s3 == 0x50) {
            assert(bytes_at(d@, p, 4) != chip_signature()) by {
                if bytes_at(d@, p, 4) == chip_signature() {
                    assert(bytes_at(d@, p, 4)[0] == s0);
                    assert(bytes_at(d@, p, 4)[1] == s1);
                    assert(bytes_at(d@, p, 4)[2] == s2);
                    assert(bytes_at(d@, p, 4)[3] == s3);
                }
            }
            assert(chips@.map_values(|c: Chip| c.view()) + Seq::<ChipView>::empty() =~= chips@.map_values(|c: Chip| c.view()));
            return Ok(chips);
        }
        assert(bytes_at(d@, p, 4) =~= chip_signature());
        if pos + 10 > len {
            return Err(CrtError::UnexpectedEof);
        }
        let pu = pos as usize;
        let length = read_be_u32(d, pu + 4);
        let type_num = read_be_u16(d, pu + 8);
        let chip_type = if type_num == 0 {
            ChipType::ROM
        } else if type_num == 1 {
            ChipType::RAM
        } else if type_num == 2 {
            ChipType::Flash
        } else {
            return Err(CrtError::InvalidChipType);
        };
        if pos + 16 > len {
            return Err(CrtError::UnexpectedEof);
        }
        let bank_number = read_be_u16(d, pu + 10);
        let load_addr = read_be_u16(d, pu + 12);
        let data_size = read_be_u16(d, pu + 14);
        let mut data: Vec<u8> = Vec::new();
        let mut k: u128 = 0;
        while k < data_size as u128
            invariant
                k <= data_size,
                data@.len() == k,
                pos + 16 <= len,
                len <= usize::MAX,
                forall|j: int| 0 <= j < k ==> data@[j] == byte_at(d@, pos + 16 + j),
            decreases data_size - k,
        {
            data.push(get_byte(d, pos + 16 + k));
            k = k + 1;
        }
        assert(data@ =~= bytes_at(d@, p + 16, data_size as nat));
        let chip = Chip { signature: sig, length, chip_type, bank_number, load_addr, data_size, data };
        let ghost cv = chip.view();
        let ghost before = chips@.map_values(|c: Chip| c.view());
        chips.push(chip);
        assert(chips@.map_values(|c: Chip| c.view()) =~= before.push(cv));
        let next = pos + 16 + data_size as u128;
        if next >= len {
            assert(before.push(cv) =~= before + seq![cv]);
            return Ok(chips);
        }
        assert(before + (seq![cv] + Seq::<ChipView>::empty()) =~= before.push(cv) + Seq::<ChipView>::empty());
        proof {
            assert forall|rest: Seq<ChipView>| #[trigger] (before + (seq![cv] + rest)) == before.push(cv) + rest by {
                assert(before + (seq![cv] + rest) =~= before.push(cv) + rest);
            }
        }
        pos = next;
    }
}

} // verus!
