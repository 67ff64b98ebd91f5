use vstd::prelude::*;

verus! {

/// Width in bytes of an encoded [`AuthorizedBufferHeader`].
pub const AUTH_BUFFER_HEADER_SIZE: usize = 9;

/// Width in bytes of an encoded [`VendingMachineBufferHeader`].
pub const VENDING_MACHINE_HEADER_SIZE: usize = 9;

/// The little-endian bytes of a `u64`.
pub open spec fn le_bytes_u64(v: u64) -> Seq<u8> {
    seq![
        (v & 0xff) as u8,
        ((v >> 8u64) & 0xff) as u8,
        ((v >> 16u64) & 0xff) as u8,
        ((v >> 24u64) & 0xff) as u8,
        ((v >> 32u64) & 0xff) as u8,
        ((v >> 40u64) & 0xff) as u8,
        ((v >> 48u64) & 0xff) as u8,
        ((v >> 56u64) & 0xff) as u8,
    ]
}

/// The `u64` whose little-endian bytes are the first eight of `s`.
pub open spec fn le_value_u64(s: Seq<u8>) -> u64 {
    (s[0] as u64) | ((s[1] as u64) << 8u64) | ((s[2] as u64) << 16u64) | ((s[3] as u64) << 24u64)
        | ((s[4] as u64) << 32u64) | ((s[5] as u64) << 40u64) | ((s[6] as u64) << 48u64) | ((
    s[7] as u64) << 56u64)
}

/// The little-endian bytes of a `u32`.
pub open spec fn le_bytes_u32(v: u32) -> Seq<u8> {
    seq![
        (v & 0xff) as u8,
        ((v >> 8u32) & 0xff) as u8,
        ((v >> 16u32) & 0xff) as u8,
        ((v >> 24u32) & 0xff) as u8,
    ]
}

/// The `u32` whose little-endian bytes are the first four of `s`.
pub open spec fn le_value_u32(s: Seq<u8>) -> u32 {
    (s[0] as u32) | ((s[1] as u32) << 8u32) | ((s[2] as u32) << 16u32) | ((s[3] as u32) << 24u32)
}

proof fn lemma_low_byte_u64(x: u64)
    ensures
        ((x & 0xff) as u8) as u64 == x & 0xff,
{
    assert(((x & 0xff) as u8) as u64 == x & 0xff) by (bit_vector);
}

proof fn lemma_low_byte_u32(x: u32)
    ensures
        ((x & 0xff) as u8) as u32 == x & 0xff,
{
    assert(((x & 0xff) as u8) as u32 == x & 0xff) by (bit_vector);
}

/// Reading back the little-endian bytes of a `u64` gives the value.
pub proof fn lemma_u64_le_round_trip(v: u64)
    ensures
        le_bytes_u64(v).len() == 8,
        le_value_u64(le_bytes_u64(v)) == v,
{
    lemma_low_byte_u64(v);
    lemma_low_byte_u64(v >> 8u64);
    lemma_low_byte_u64(v >> 16u64);
    lemma_low_byte_u64(v >> 24u64);
    lemma_low_byte_u64(v >> 32u64);
    lemma_low_byte_u64(v >> 40u64);
    lemma_low_byte_u64(v >> 48u64);
    lemma_low_byte_u64(v >> 56u64);
    assert(v == (v & 0xff) | (((v >> 8u64) & 0xff) << 8u64) | (((v >> 16u64) & 0xff) << 16u64) | (((
    v >> 24u64) & 0xff) << 24u64) | (((v >> 32u64) & 0xff) << 32u64) | (((v >> 40u64) & 0xff)
        << 40u64) | (((v >> 48u64) & 0xff) << 48u64) | (((v >> 56u64) & 0xff) << 56u64))
        by (bit_vector);
}

/// Reading back the little-endian bytes of a `u32` gives the value.
pub proof fn lemma_u32_le_round_trip(v: u32)
    ensures
        le_bytes_u32(v).len() == 4,
        le_value_u32(le_bytes_u32(v)) == v,
{
    lemma_low_byte_u32(v);
    lemma_low_byte_u32(v >> 8u32);
    lemma_low_byte_u32(v >> 16u32);
    lemma_low_byte_u32(v >> 24u32);
    assert(v == (v & 0xff) | (((v >> 8u32) & 0xff) << 8u32) | (((v >> 16u32) & 0xff) << 16u32) | (((
    v >> 24u32) & 0xff) << 24u32)) by (bit_vector);
}

/// Appends the little-endian bytes of `v`.
pub fn push_u64_le(out: &mut Vec<u8>, v: u64)
    ensures
        final(out)@ == old(out)@ + le_bytes_u64(v),
{
    out.push((v & 0xff) as u8);
    out.push(((v >> 8u64) & 0xff) as u8);
    out.push(((v >> 16u64) & 0xff) as u8);
    out.push(((v >> 24u64) & 0xff) as u8);
    out.push(((v >> 32u64) & 0xff) as u8);
    out.push(((v >> 40u64) & 0xff) as u8);
    out.push(((v >> 48u64) & 0xff) as u8);
    out.push(((v >> 56u64) & 0xff) as u8);
    assert(out@ =~= old(out)@ + le_bytes_u64(v));
}

/// Appends the little-endian bytes of `v`.
pub fn push_u32_le(out: &mut Vec<u8>, v: u32)
    ensures
        final(out)@ == old(out)@ + le_bytes_u32(v),
{
    out.push((v & 0xff) as u8);
    out.push(((v >> 8u32) & 0xff) as u8);
    out.push(((v >> 16u32) & 0xff) as u8);
    out.push(((v >> 24u32) & 0xff) as u8);
    assert(out@ =~= old(out)@ + le_bytes_u32(v));
}

/// Reads the `u64` stored little-endian at `at`.
pub fn read_u64_le(bytes: &Vec<u8>, at: usize) -> (r: u64)
    requires
        at + 8 <= bytes@.len(),
    ensures
        r == le_value_u64(bytes@.subrange(at as int, at + 8)),
{
    assert(bytes.len() <= usize::MAX);
    let s = Ghost(bytes@.subrange(at as int, at + 8));
    assert(s@[0] == bytes@[at as int] && s@[1] == bytes@[at + 1] && s@[2] == bytes@[at + 2]
        && s@[3] == bytes@[at + 3] && s@[4] == bytes@[at + 4] && s@[5] == bytes@[at + 5]
        && s@[6] == bytes@[at + 6] && s@[7] == bytes@[at + 7]);
    (bytes[at] as u64) | ((bytes[at + 1] as u64) << 8u64) | ((bytes[at + 2] as u64) << 16u64) | ((
    bytes[at + 3] as u64) << 24u64) | ((bytes[at + 4] as u64) << 32u64) | ((bytes[at + 5] as u64)
        << 40u64) | ((bytes[at + 6] as u64) << 48u64) | ((bytes[at + 7] as u64) << 56u64)
}

/// Reads the `u32` stored little-endian at `at`.
pub fn read_u32_le(bytes: &Vec<u8>, at: usize) -> (r: u32)
    requires
        at + 4 <= bytes@.len(),
    ensures
        r == le_value_u32(bytes@.subrange(at as int, at + 4)),
{
    assert(bytes.len() <= usize::MAX);
    let s = Ghost(bytes@.subrange(at as int, at + 4));
    assert(s@[0] == bytes@[at as int] && s@[1] == bytes@[at + 1] && s@[2] == bytes@[at + 2]
        && s@[3] == bytes@[at + 3]);
    (bytes[at] as u32) | ((bytes[at + 1] as u32) << 8u32) | ((bytes[at + 2] as u32) << 16u32) | ((
    bytes[at + 3] as u32) << 24u32)
}

/// Header stored at the start of an authorized buffer.
#[derive(Debug, Clone, Copy, PartialEq, Eq, Structural)]
pub struct AuthorizedBufferHeader {
    pub bump_seed: u8,
    pub buffer_seed: u64,
}

/// Header stored at the start of a vending-machine buffer.
#[derive(Debug, Clone, Copy, PartialEq, Eq, Structural)]
pub struct VendingMachineBufferHeader {
    pub bump_seed: u8,
    pub price: u64,
}

/// A nine-byte header: one byte, then a `u64` little-endian.
pub open spec fn header_bytes(bump_seed: u8, value: u64) -> Seq<u8> {
    seq![bump_seed] + le_bytes_u64(value)
}

/// Encodes a nine-byte header.
pub fn encode_header(bump_seed: u8, value: u64) -> (r: Vec<u8>)
    ensures
        r@ == header_bytes(bump_seed, value),
        r@.len() == 9,
{
    let mut out: Vec<u8> = Vec::new();
    out.push(bump_seed);
    push_u64_le(&mut out, value);
    assert(out@ =~= header_bytes(bump_seed, value));
    out
}

impl AuthorizedBufferHeader {
    pub open spec fn spec_encode(self) -> Seq<u8> {
        header_bytes(self.bump_seed, self.buffer_seed)
    }

    /// The header held by the first nine bytes of `s`, if there are nine.
    pub open spec fn spec_decode(s: Seq<u8>) -> Option<Self> {
        if s.len() >= AUTH_BUFFER_HEADER_SIZE {
            Some(AuthorizedBufferHeader { bump_seed: s[0], buffer_seed: le_value_u64(s.subrange(1, 9)) })
        } else {
            None
        }
    }

    pub fn encode(&self) -> (r: Vec<u8>)
        ensures
            r@ == self.spec_encode(),
            r@.len() == AUTH_BUFFER_HEADER_SIZE,
    {
        encode_header(self.bump_seed, self.buffer_seed)
    }

    /// Reads the header from the start of a buffer.
    pub fn decode(bytes: &Vec<u8>) -> (r: Option<Self>)
        ensures
            r == Self::spec_decode(bytes@),
    {
        if bytes.len() < AUTH_BUFFER_HEADER_SIZE {
            return None;
        }
        let buffer_seed = read_u64_le(bytes, 1);
        Some(AuthorizedBufferHeader { bump_seed: bytes[0], buffer_seed })
    }
}

impl VendingMachineBufferHeader {
    pub open spec fn spec_encode(self) -> Seq<u8> {
        header_bytes(self.bump_seed, self.price)
    }

    /// The header held by the first nine bytes of `s`, if there are nine.
    pub open spec fn spec_decode(s: Seq<u8>) -> Option<Self> {
        if s.len() >= VENDING_MACHINE_HEADER_SIZE {
            Some(VendingMachineBufferHeader { bump_seed: s[0], price: le_value_u64(s.subrange(1, 9)) })
        } else {
            None
        }
    }

    pub fn encode(&self) -> (r: Vec<u8>)
        ensures
            r@ == self.spec_encode(),
            r@.len() == VENDING_MACHINE_HEADER_SIZE,
    {
        encode_header(self.bump_seed, self.price)
    }

    /// Reads the header from the start of a buffer.
    pub fn decode(bytes: &Vec<u8>) -> (r: Option<Self>)
        ensures
            r == Self::spec_decode(bytes@),
    {
        if bytes.len() < VENDING_MACHINE_HEADER_SIZE {
            return None;
        }
        let price = read_u64_le(bytes, 1);
        Some(VendingMachineBufferHeader { bump_seed: bytes[0], price })
    }
}

/// Decoding an encoded header gives back its fields, for both kinds of header.
pub proof fn lemma_header_round_trip(a: AuthorizedBufferHeader, v: VendingMachineBufferHeader)
    ensures
        AuthorizedBufferHeader::spec_decode(a.spec_encode()) == Some(a),
        VendingMachineBufferHeader::spec_decode(v.spec_encode()) == Some(v),
{
    lemma_u64_le_round_trip(a.buffer_seed);
    lemma_u64_le_round_trip(v.price);
    assert(a.spec_encode().subrange(1, 9) =~= le_bytes_u64(a.buffer_seed));
    assert(v.spec_encode().subrange(1, 9) =~= le_bytes_u64(v.price));
}

/// An instruction of the program. On the wire: a one-byte tag (the
/// variant's position, from 0), then the fields in order; a byte string is a
/// `u32` length and the bytes, integers are little-endian, and a `usize` is
/// written as a `u64`.
#[derive(Debug, PartialEq, Eq)]
pub enum EchoInstruction {
    Echo { data: Vec<u8> },
    InitializeAuthorizedEcho { buffer_seed: u64, buffer_size: usize },
    AuthorizedEcho { data: Vec<u8> },
    InitializeVendingMachine { price: u64, buffer_size: usize },
}

/// What an [`EchoInstruction`] holds, with its byte strings as sequences.
pub enum InstructionView {
    Echo { data: Seq<u8> },
    InitializeAuthorizedEcho { buffer_seed: u64, buffer_size: usize },
    AuthorizedEcho { data: Seq<u8> },
    InitializeVendingMachine { price: u64, buffer_size: usize },
}

impl View for EchoInstruction {
    type V = InstructionView;

    open spec fn view(&self) -> InstructionView {
        match self {
            EchoInstruction::Echo { data } => InstructionView::Echo { data: data@ },
            EchoInstruction::InitializeAuthorizedEcho { buffer_seed, buffer_size } =>
                InstructionView::InitializeAuthorizedEcho {
                buffer_seed: *buffer_seed,
                buffer_size: *buffer_size,
            },
            EchoInstruction::AuthorizedEcho { data } => InstructionView::AuthorizedEcho {
                data: data@,
            },
            EchoInstruction::InitializeVendingMachine { price, buffer_size } =>
                InstructionView::InitializeVendingMachine { price: *price, buffer_size: *buffer_size },
        }
    }
}

/// The instruction that the bytes `s` encode, all of them read; `None` where
/// they are truncated, too long, carry an unknown tag or a size beyond `usize`.
pub open spec fn spec_decode_instruction(s: Seq<u8>) -> Option<InstructionView> {
    if s.len() == 0 {
        None
    } else if s[0] == 0 || s[0] == 2 {
        if s.len() < 5 || s.len() != 5 + le_value_u32(s.subrange(1, 5)) {
            None
        } else if s[0] == 0 {
            Some(InstructionView::Echo { data: s.subrange(5, s.len() as int) })
        } else {
            Some(InstructionView::AuthorizedEcho { data: s.subrange(5, s.len() as int) })
        }
    } else if s[0] == 1 || s[0] == 3 {
        if s.len() != 17 || le_value_u64(s.subrange(9, 17)) > usize::MAX {
            None
        } else if s[0] == 1 {
            Some(
                InstructionView::InitializeAuthorizedEcho {
                    buffer_seed: le_value_u64(s.subrange(1, 9)),
                    buffer_size: le_value_u64(s.subrange(9, 17)) as usize,
                },
            )
        } else {
            Some(
                InstructionView::InitializeVendingMachine {
                    price: le_value_u64(s.subrange(1, 9)),
                    buffer_size: le_value_u64(s.subrange(9, 17)) as usize,
                },
            )
        }
    } else {
        None
    }
}

/// The bytes of an instruction.
pub open spec fn spec_encode_instruction(ix: InstructionView) -> Seq<u8> {
    match ix {
        InstructionView::Echo { data } => seq![0u8] + le_bytes_u32(data.len() as u32) + data,
        InstructionView::InitializeAuthorizedEcho { buffer_seed, buffer_size } => seq![1u8]
            + le_bytes_u64(buffer_seed) + le_bytes_u64(buffer_size as u64),
        InstructionView::AuthorizedEcho { data } => seq![2u8] + le_bytes_u32(data.len() as u32)
            + data,
        InstructionView::InitializeVendingMachine { price, buffer_size } => seq![3u8]
            + le_bytes_u64(price) + le_bytes_u64(buffer_size as u64),
    }
}

/// An instruction that can be written: its byte string's length fits a `u32`.
pub open spec fn encodable(ix: InstructionView) -> bool {
    match ix {
        InstructionView::Echo { data } => data.len() <= u32::MAX,
        InstructionView::AuthorizedEcho { data } => data.len() <= u32::MAX,
        _ => true,
    }
}

fn copy_range(bytes: &Vec<u8>, start: usize, end: usize) -> (r: Vec<u8>)
    requires
        start <= end <= bytes@.len(),
    ensures
        r@ == bytes@.subrange(start as int, end as int),
{
    let mut out: Vec<u8> = Vec::new();
    let mut i: usize = start;
    while i < end
        invariant
            start <= i <= end <= bytes@.len(),
            out@ == bytes@.subrange(start as int, i as int),
        decreases end - i,
    {
        out.push(bytes[i]);
        i = i + 1;
        assert(out@ =~= bytes@.subrange(start as int, i as int));
    }
    out
}

fn append_bytes(out: &mut Vec<u8>, data: &Vec<u8>)
    ensures
        final(out)@ == old(out)@ + data@,
{
    let mut i: usize = 0;
    while i < data.len()
        invariant
            i <= data@.len(),
            out@ == old(out)@ + data@.subrange(0, i as int),
        decreases data@.len() - i,
    {
        out.push(data[i]);
        i = i + 1;
        assert(out@ =~= old(out)@ + data@.subrange(0, i as int));
    }
    assert(data@.subrange(0, data@.len() as int) =~= data@);
}

impl EchoInstruction {
    /// Decodes instruction bytes; every byte must be read.
    pub fn decode(bytes: &Vec<u8>) -> (r: Option<EchoInstruction>)
        ensures
            match r {
                Some(ix) => spec_decode_instruction(bytes@) == Some(ix@),
                None => spec_decode_instruction(bytes@) is None,
            },
    {
        let n = bytes.len();
        if n == 0 {
            return None;
        }
        let tag = bytes[0];
        if tag == 0 || tag == 2 {
            if n < 5 {
                return None;
            }
            let len = read_u32_le(bytes, 1);
            if n - 5 != len as usize {
                return None;
            }
            let data = copy_range(bytes, 5, n);
            if tag == 0 {
                Some(EchoInstruction::Echo { data })
            } else {
                Some(EchoInstruction::AuthorizedEcho { data })
            }
        } else if tag == 1 || tag == 3 {
            if n != 17 {
                return None;
            }
            let first = read_u64_le(bytes, 1);
            let size = read_u64_le(bytes, 9);
            if size > usize::MAX as u64 {
                return None;
            }
            if tag == 1 {
                Some(
                    EchoInstruction::InitializeAuthorizedEcho {
                        buffer_seed: first,
                        buffer_size: size as usize,
                    },
                )
            } else {
                Some(EchoInstruction::InitializeVendingMachine { price: first, buffer_size: size as usize })
            }
        } else {
            None
        }
    }

    /// Encodes the instruction as [`EchoInstruction::decode`] reads it.
    pub fn encode(&self) -> (r: Vec<u8>)
        requires
            encodable(self@),
        ensures
            r@ == spec_encode_instruction(self@),
    {
        let mut out: Vec<u8> = Vec::new();
        match self {
            EchoInstruction::Echo { data } => {
                out.push(0u8);
                push_u32_le(&mut out, data.len() as u32);
                append_bytes(&mut out, data);
            },
            EchoInstruction::InitializeAuthorizedEcho { buffer_seed, buffer_size } => {
                out.push(1u8);
                push_u64_le(&mut out, *buffer_seed);
                push_u64_le(&mut out, *buffer_size as u64);
            },
            EchoInstruction::AuthorizedEcho { data } => {
                out.push(2u8);
                push_u32_le(&mut out, data.len() as u32);
                append_bytes(&mut out, data);
            },
            EchoInstruction::InitializeVendingMachine { price, buffer_size } => {
                out.push(3u8);
                push_u64_le(&mut out, *price);
                push_u64_le(&mut out, *buffer_size as u64);
            },
        }
        assert(out@ =~= spec_encode_instruction(self@));
        out
    }
}

/// Decoding the bytes of an encodable instruction gives the instruction back.
pub proof fn lemma_instruction_round_trip(ix: InstructionView)
    requires
        encodable(ix),
    ensures
        spec_decode_instruction(spec_encode_instruction(ix)) == Some(ix),
{
    let s = spec_encode_instruction(ix);
    match ix {
        InstructionView::Echo { data } => {
            lemma_u32_le_round_trip(data.len() as u32);
            assert(s.subrange(1, 5) =~= le_bytes_u32(data.len() as u32));
            assert(s.subrange(5, s.len() as int) =~= data);
        },
        InstructionView::AuthorizedEcho { data } => {
            lemma_u32_le_round_trip(data.len() as u32);
            assert(s.subrange(1, 5) =~= le_bytes_u32(data.len() as u32));
            assert(s.subrange(5, s.len() as int) =~= data);
        },
        InstructionView::InitializeAuthorizedEcho { buffer_seed, buffer_size } => {
            lemma_u64_le_round_trip(buffer_seed);
            lemma_u64_le_round_trip(buffer_size as u64);
            assert(s.subrange(1, 9) =~= le_bytes_u64(buffer_seed));
            assert(s.subrange(9, 17) =~= le_bytes_u64(buffer_size as u64));
        },
        InstructionView::InitializeVendingMachine { price, buffer_size } => {
            lemma_u64_le_round_trip(price);
            lemma_u64_le_round_trip(buffer_size as u64);
            assert(s.subrange(1, 9) =~= le_bytes_u64(price));
            assert(s.subrange(9, 17) =~= le_bytes_u64(buffer_size as u64));
        },
    }
}

} // verus!
