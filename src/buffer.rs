use vstd::prelude::*;
use crate::error::ProcessError;

verus! {

/// A region of `len` bytes holding `payload` from its start, cut to the
/// region, and zeros after it.
pub open spec fn echo_fill(len: nat, payload: Seq<u8>) -> Seq<u8> {
    Seq::new(len, |i: int| if i < payload.len() { payload[i] } else { 0u8 })
}

/// `region` with its first `header_size` bytes kept and the rest holding
/// `payload`, cut to the region, then zeros.
pub open spec fn with_payload(region: Seq<u8>, header_size: nat, payload: Seq<u8>) -> Seq<u8> {
    Seq::new(
        region.len(),
        |i: int|
            if i < header_size {
                region[i]
            } else if i - header_size < payload.len() {
                payload[i - header_size]
            } else {
                0u8
            },
    )
}

/// `region` with `header` laid over its start.
pub open spec fn with_header(region: Seq<u8>, header: Seq<u8>) -> Seq<u8> {
    header + region.subrange(header.len() as int, region.len() as int)
}

/// Writes `data` over a whole buffer: as many bytes as both hold, then zeros.
/// An empty buffer is refused and left as it is.
pub fn write_echo(buffer: &mut Vec<u8>, data: &Vec<u8>) -> (r: Result<(), ProcessError>)
    ensures
        old(buffer)@.len() == 0 ==> r == Err::<(), ProcessError>(
            ProcessError::AccountDataTooSmall,
        ) && final(buffer)@ == old(buffer)@,
        old(buffer)@.len() > 0 ==> r is Ok && final(buffer)@ == echo_fill(
            old(buffer)@.len(),
            data@,
        ),
{
    let n = buffer.len();
    if n == 0 {
        return Err(ProcessError::AccountDataTooSmall);
    }
    let mut i: usize = 0;
    while i < n
        invariant
            i <= n == buffer@.len() == old(buffer)@.len(),
            forall|k: int| 0 <= k < i ==> buffer@[k] == echo_fill(n as nat, data@)[k],
        decreases n - i,
    {
        let b = if i < data.len() {
            data[i]
        } else {
            0u8
        };
        buffer[i] = b;
        i = i + 1;
    }
    assert(buffer@ =~= echo_fill(n as nat, data@));
    Ok(())
}

/// Writes `data` after the first `header_size` bytes of a buffer, cut to the
/// buffer, and zeros after it; the header is kept.
pub fn write_payload(buffer: &mut Vec<u8>, header_size: usize, data: &Vec<u8>)
    requires
        header_size <= old(buffer)@.len(),
    ensures
        final(buffer)@ == with_payload(old(buffer)@, header_size as nat, data@),
{
    let n = buffer.len();
    let mut i: usize = header_size;
    while i < n
        invariant
            header_size <= i <= n == buffer@.len() == old(buffer)@.len(),
            forall|k: int|
                0 <= k < i ==> buffer@[k] == with_payload(old(buffer)@, header_size as nat, data@)[k],
            forall|k: int| i <= k < n ==> buffer@[k] == old(buffer)@[k],
        decreases n - i,
    {
        let at = i - header_size;
        let b = if at < data.len() {
            data[at]
        } else {
            0u8
        };
        buffer[i] = b;
        i = i + 1;
    }
    assert(buffer@ =~= with_payload(old(buffer)@, header_size as nat, data@));
}

/// Lays `header` over the start of a buffer; the rest is kept.
pub fn write_header(buffer: &mut Vec<u8>, header: &Vec<u8>)
    requires
        header@.len() <= old(buffer)@.len(),
    ensures
        final(buffer)@ == with_header(old(buffer)@, header@),
{
    let mut i: usize = 0;
    while i < header.len()
        invariant
            i <= header@.len() <= buffer@.len() == old(buffer)@.len(),
            forall|k: int| 0 <= k < i ==> buffer@[k] == header@[k],
            forall|k: int| i <= k < buffer@.len() ==> buffer@[k] == old(buffer)@[k],
        decreases header@.len() - i,
    {
        buffer[i] = header[i];
        i = i + 1;
    }
    assert(buffer@ =~= with_header(old(buffer)@, header@));
}

/// A payload write stays inside the buffer: the length is kept, the header
/// bytes are kept, and every byte past the header and the payload is zero.
pub proof fn lemma_payload_write_in_bounds(region: Seq<u8>, header_size: nat, payload: Seq<u8>)
    requires
        header_size <= region.len(),
    ensures
        with_payload(region, header_size, payload).len() == region.len(),
        forall|i: int|
            0 <= i < header_size ==> #[trigger] with_payload(region, header_size, payload)[i]
                == region[i],
        forall|i: int|
            header_size + payload.len() <= i < region.len() ==> #[trigger] with_payload(
                region,
                header_size,
                payload,
            )[i] == 0,
        forall|i: int|
            header_size <= i < region.len() && i < header_size + payload.len()
                ==> #[trigger] with_payload(region, header_size, payload)[i] == payload[i
                - header_size],
{
}

} // verus!
